//! The declarative build model: compiler, linker, target, named profiles.

use vstd::prelude::*;
use crate::command::{compile_command, link_command, synthesize};
use crate::database::{database_of, CompilationDatabase, CompilationEntry};
use crate::error::{Error, ErrorKind};
use crate::makefile::{generate_makefile, makefile_text};

verus! {

/// The compiler executable and its argument string, which is passed on
/// verbatim.
#[derive(Debug, PartialEq, Eq)]
pub struct ConfigBuildCompiler {
    /// The program to run; in a configuration file the key is `exec`.
    pub executable: String,
    pub args: String,
}

/// The linker executable and its argument string, for builds that link in a
/// pass of their own.
#[derive(Debug, PartialEq, Eq)]
pub struct ConfigBuildLinker {
    /// The program to run; in a configuration file the key is `exec`.
    pub executable: String,
    pub args: String,
}

/// Shell commands run around the compile step.
#[derive(Debug, PartialEq, Eq)]
pub struct ConfigBuildCommands {
    pub pre_build: Option<String>,
    pub post_build: Option<String>,
}

/// How the main file is built: the compiler, the linker where linking is a
/// pass of its own, the target triple that both are given, and the hooks.
#[derive(Debug, PartialEq, Eq)]
pub struct ConfigBuild {
    pub compiler: ConfigBuildCompiler,
    pub linker: Option<ConfigBuildLinker>,
    pub main_filename: String,
    pub target: Option<String>,
    pub commands: Option<ConfigBuildCommands>,
}

/// The directories and files of a fresh project, in creation order.
#[derive(Debug, PartialEq, Eq)]
pub struct ConfigStructure {
    pub directories: Vec<String>,
    pub files: Vec<String>,
}

/// A named bundle of build settings and project layout.
#[derive(Debug, PartialEq, Eq)]
pub struct Profile {
    pub name: String,
    pub build: ConfigBuild,
    pub structure: ConfigStructure,
}

/// The profiles of a configuration and the name of the one that is taken
/// when none is asked for. Names are meant to be unique; that the default
/// names a profile is found out when a profile is resolved, not before.
#[derive(Debug, PartialEq, Eq)]
pub struct Config {
    pub default_profile: String,
    pub profile: Vec<Profile>,
}

/// An executable with its arguments, as text.
pub ghost struct ToolView {
    pub executable: Seq<char>,
    pub args: Seq<char>,
}

/// The hooks, as text.
pub ghost struct CommandsView {
    pub pre_build: Option<Seq<char>>,
    pub post_build: Option<Seq<char>>,
}

/// A build, as text.
pub ghost struct BuildView {
    pub compiler: ToolView,
    pub linker: Option<ToolView>,
    pub main_filename: Seq<char>,
    pub target: Option<Seq<char>>,
    pub commands: Option<CommandsView>,
}

/// A layout, as text.
pub ghost struct StructureView {
    pub directories: Seq<Seq<char>>,
    pub files: Seq<Seq<char>>,
}

/// A profile, as text.
pub ghost struct ProfileView {
    pub name: Seq<char>,
    pub build: BuildView,
    pub structure: StructureView,
}

/// A configuration, as text.
pub ghost struct ConfigView {
    pub default_profile: Seq<char>,
    pub profile: Seq<ProfileView>,
}

/// The text of an optional string.
pub open spec fn text_of(s: Option<String>) -> Option<Seq<char>> {
    match s {
        Some(t) => Some(t@),
        None => None,
    }
}

/// The texts of a list of strings.
pub open spec fn texts_of(v: Seq<String>) -> Seq<Seq<char>> {
    Seq::new(v.len(), |i: int| v[i]@)
}

impl View for ConfigBuildCompiler {
    type V = ToolView;

    open spec fn view(&self) -> ToolView {
        ToolView { executable: self.executable@, args: self.args@ }
    }
}

impl View for ConfigBuildLinker {
    type V = ToolView;

    open spec fn view(&self) -> ToolView {
        ToolView { executable: self.executable@, args: self.args@ }
    }
}

impl View for ConfigBuildCommands {
    type V = CommandsView;

    open spec fn view(&self) -> CommandsView {
        CommandsView {
            pre_build: text_of(self.pre_build),
            post_build: text_of(self.post_build),
        }
    }
}

impl View for ConfigBuild {
    type V = BuildView;

    open spec fn view(&self) -> BuildView {
        BuildView {
            compiler: self.compiler@,
            linker: match self.linker {
                Some(l) => Some(l@),
                None => None,
            },
            main_filename: self.main_filename@,
            target: text_of(self.target),
            commands: match self.commands {
                Some(c) => Some(c@),
                None => None,
            },
        }
    }
}

impl View for ConfigStructure {
    type V = StructureView;

    open spec fn view(&self) -> StructureView {
        StructureView {
            directories: texts_of(self.directories@),
            files: texts_of(self.files@),
        }
    }
}

impl View for Profile {
    type V = ProfileView;

    open spec fn view(&self) -> ProfileView {
        ProfileView { name: self.name@, build: self.build@, structure: self.structure@ }
    }
}

impl View for Config {
    type V = ConfigView;

    open spec fn view(&self) -> ConfigView {
        ConfigView {
            default_profile: self.default_profile@,
            profile: Seq::new(self.profile@.len(), |i: int| self.profile@[i]@),
        }
    }
}

/// A copy of an optional string.
pub fn clone_text(s: &Option<String>) -> (r: Option<String>)
    ensures
        text_of(r) == text_of(*s),
{
    match s {
        Some(t) => Some(t.clone()),
        None => None,
    }
}

/// A copy of a list of strings.
pub fn clone_texts(v: &Vec<String>) -> (r: Vec<String>)
    ensures
        texts_of(r@) == texts_of(v@),
{
    let mut r: Vec<String> = Vec::new();
    let mut i: usize = 0;
    while i < v.len()
        invariant
            i <= v.len(),
            r@.len() == i,
            forall|j: int| 0 <= j < i ==> r@[j]@ == v@[j]@,
        decreases v.len() - i,
    {
        r.push(v[i].clone());
        i += 1;
    }
    assert(texts_of(r@) =~= texts_of(v@));
    r
}

impl Clone for ConfigBuildCompiler {
    fn clone(&self) -> (r: Self)
        ensures
            r@ == self@,
    {
        ConfigBuildCompiler { executable: self.executable.clone(), args: self.args.clone() }
    }
}

impl Clone for ConfigBuildLinker {
    fn clone(&self) -> (r: Self)
        ensures
            r@ == self@,
    {
        ConfigBuildLinker { executable: self.executable.clone(), args: self.args.clone() }
    }
}

impl Clone for ConfigBuildCommands {
    fn clone(&self) -> (r: Self)
        ensures
            r@ == self@,
    {
        ConfigBuildCommands {
            pre_build: clone_text(&self.pre_build),
            post_build: clone_text(&self.post_build),
        }
    }
}

impl Clone for ConfigBuild {
    fn clone(&self) -> (r: Self)
        ensures
            r@ == self@,
    {
        ConfigBuild {
            compiler: self.compiler.clone(),
            linker: match &self.linker {
                Some(l) => Some(l.clone()),
                None => None,
            },
            main_filename: self.main_filename.clone(),
            target: clone_text(&self.target),
            commands: match &self.commands {
                Some(c) => Some(c.clone()),
                None => None,
            },
        }
    }
}

impl Clone for ConfigStructure {
    fn clone(&self) -> (r: Self)
        ensures
            r@ == self@,
    {
        ConfigStructure {
            directories: clone_texts(&self.directories),
            files: clone_texts(&self.files),
        }
    }
}

impl Clone for Profile {
    fn clone(&self) -> (r: Self)
        ensures
            r@ == self@,
    {
        Profile {
            name: self.name.clone(),
            build: self.build.clone(),
            structure: self.structure.clone(),
        }
    }
}

/// Whether the profile at a position carries the name.
pub open spec fn named(profiles: Seq<ProfileView>, name: Seq<char>, i: int) -> bool {
    0 <= i < profiles.len() && profiles[i].name == name
}

/// Whether the profile at a position is the first that carries the name.
pub open spec fn first_named(profiles: Seq<ProfileView>, name: Seq<char>, i: int) -> bool {
    named(profiles, name, i) && forall|j: int| 0 <= j < i ==> !named(profiles, name, j)
}

/// The first profile with exactly this name, if there is one.
pub open spec fn lookup(profiles: Seq<ProfileView>, name: Seq<char>) -> Option<ProfileView> {
    if exists|i: int| named(profiles, name, i) {
        Some(profiles[choose|i: int| first_named(profiles, name, i)])
    } else {
        None
    }
}

/// No two profiles carry the same name.
pub open spec fn names_unique(profiles: Seq<ProfileView>) -> bool {
    forall|i: int, j: int| 0 <= i < j < profiles.len() ==> profiles[i].name != profiles[j].name
}

/// The name that a resolution looks for: the requested one, else the
/// default.
pub open spec fn wanted_name(config: ConfigView, requested: Option<Seq<char>>) -> Seq<char> {
    match requested {
        Some(name) => name,
        None => config.default_profile,
    }
}

/// The profile that a request resolves to, or the name that no profile
/// carries.
pub open spec fn resolution(config: ConfigView, requested: Option<Seq<char>>) -> Result<
    ProfileView,
    Seq<char>,
> {
    match lookup(config.profile, wanted_name(config, requested)) {
        Some(profile) => Ok(profile),
        None => Err(wanted_name(config, requested)),
    }
}

/// The text of an optional borrowed string.
pub open spec fn request_of(requested: Option<&String>) -> Option<Seq<char>> {
    match requested {
        Some(name) => Some(name@),
        None => None,
    }
}

/// A profile at a position that no earlier profile shares its name with is
/// what a lookup of that name finds.
pub proof fn lemma_lookup_first(profiles: Seq<ProfileView>, name: Seq<char>, i: int)
    requires
        first_named(profiles, name, i),
    ensures
        lookup(profiles, name) == Some(profiles[i]),
{
    assert(named(profiles, name, i));
    let k = choose|k: int| first_named(profiles, name, k);
    assert(first_named(profiles, name, k));
    if k < i {
        assert(!named(profiles, name, k));
    }
    if i < k {
        assert(!named(profiles, name, i));
    }
}

/// A lookup finds nothing exactly when no profile carries the name, and what
/// it finds carries the name and is one of the profiles.
pub proof fn lemma_lookup_sound(profiles: Seq<ProfileView>, name: Seq<char>)
    ensures
        lookup(profiles, name) is None <==> forall|i: int|
            0 <= i < profiles.len() ==> profiles[i].name != name,
        lookup(profiles, name) matches Some(p) ==> p.name == name && profiles.contains(p),
{
    if exists|i: int| named(profiles, name, i) {
        let i = choose|i: int| named(profiles, name, i);
        lemma_first_exists(profiles, name, i);
        let k = choose|k: int| first_named(profiles, name, k);
        assert(named(profiles, name, k));
        assert(profiles[k].name == name);
    } else {
        assert forall|i: int| 0 <= i < profiles.len() implies profiles[i].name != name by {
            assert(!named(profiles, name, i));
        }
    }
}

/// Where some profile carries the name, one of them is the first.
pub proof fn lemma_first_exists(profiles: Seq<ProfileView>, name: Seq<char>, i: int)
    requires
        named(profiles, name, i),
    ensures
        exists|k: int| first_named(profiles, name, k),
    decreases i,
{
    if exists|j: int| 0 <= j < i && named(profiles, name, j) {
        let j = choose|j: int| 0 <= j < i && named(profiles, name, j);
        lemma_first_exists(profiles, name, j);
    } else {
        assert(first_named(profiles, name, i));
    }
}

impl Config {
    /// A configuration of one profile, which is its default: the form of a
    /// configuration that has a single build and no profiles to choose from.
    pub fn single(profile: Profile) -> (r: Config)
        ensures
            r@.default_profile == profile@.name,
            r@.profile == seq![profile@],
    {
        let default_profile = profile.name.clone();
        let mut profiles: Vec<Profile> = Vec::new();
        profiles.push(profile);
        let r = Config { default_profile, profile: profiles };
        assert(r@.profile =~= seq![profile@]);
        r
    }

    /// Whether no two profiles carry the same name.
    pub fn has_unique_names(&self) -> (r: bool)
        ensures
            r == names_unique(self@.profile),
    {
        let n = self.profile.len();
        let mut j: usize = 0;
        while j < n
            invariant
                n == self.profile@.len(),
                j <= n,
                forall|a: int, b: int| 0 <= a < b < j ==> self@.profile[a].name != self@.profile[b].name,
            decreases n - j,
        {
            let mut i: usize = 0;
            while i < j
                invariant
                    n == self.profile@.len(),
                    i <= j < n,
                    forall|a: int| 0 <= a < i ==> self@.profile[a].name != self@.profile[j as int].name,
                decreases j - i,
            {
                if self.profile[i].name == self.profile[j].name {
                    assert(self@.profile[i as int].name == self@.profile[j as int].name);
                    return false;
                }
                i += 1;
            }
            j += 1;
        }
        true
    }
}

/// Holds a configuration and finds profiles in it.
pub struct ConfigManager {
    pub config: Config,
}

impl ConfigManager {
    pub fn new(config: Config) -> (r: Self)
        ensures
            r.config == config,
    {
        Self { config }
    }

    /// A copy of the first profile with exactly this name, if there is one.
    pub fn get_profile(&self, profile_name: &String) -> (r: Option<Profile>)
        ensures
            match r {
                Some(p) => lookup(self.config@.profile, profile_name@) == Some(p@),
                None => lookup(self.config@.profile, profile_name@) is None,
            },
    {
        let mut i: usize = 0;
        while i < self.config.profile.len()
            invariant
                i <= self.config.profile@.len(),
                forall|j: int| 0 <= j < i ==> !named(self.config@.profile, profile_name@, j),
            decreases self.config.profile.len() - i,
        {
            if self.config.profile[i].name == *profile_name {
                proof {
                    assert(named(self.config@.profile, profile_name@, i as int));
                    lemma_lookup_first(self.config@.profile, profile_name@, i as int);
                }
                return Some(self.config.profile[i].clone());
            }
            assert(!named(self.config@.profile, profile_name@, i as int));
            i += 1;
        }
        None
    }

    /// The profile with the requested name or, where none is requested, with
    /// the default name. Fails where no profile carries that name: nothing
    /// else is tried.
    pub fn resolve(&self, requested_name: Option<&String>) -> (r: Result<Profile, Error>)
        ensures
            match r {
                Ok(p) => resolution(self.config@, request_of(requested_name)) == Ok::<
                    ProfileView,
                    Seq<char>,
                >(p@),
                Err(e) => e.spec_kind() matches ErrorKind::ProfileNotFound { name }
                    && resolution(self.config@, request_of(requested_name)) == Err::<
                    ProfileView,
                    Seq<char>,
                >(name@),
            },
    {
        let name = match requested_name {
            Some(name) => name,
            None => &self.config.default_profile,
        };
        match self.get_profile(name) {
            Some(profile) => Ok(profile),
            None => Err(Error::new(ErrorKind::ProfileNotFound { name: name.clone() })),
        }
    }
}

/// Holds a resolved profile and derives the build artifacts from it.
pub struct ProfileManager {
    pub profile: Profile,
}

impl ProfileManager {
    pub fn new(profile: Profile) -> (r: Self)
        ensures
            r.profile == profile,
    {
        Self { profile }
    }

    /// The compiler invocation: executable, main file, arguments, with the
    /// target flag in front of the arguments where a target is set.
    pub fn get_compile_command(&self) -> (r: String)
        ensures
            r@ == compile_command(self.profile@.build),
    {
        synthesize(&self.profile.build).0
    }

    /// The linker invocation, where a linker is configured.
    pub fn get_link_command(&self) -> (r: Option<String>)
        ensures
            text_of(r) == link_command(self.profile@.build),
    {
        synthesize(&self.profile.build).1
    }

    /// The Makefile of the profile.
    pub fn create_makefile(&self) -> (r: String)
        ensures
            r@ == makefile_text(
                self.profile@.build.main_filename,
                compile_command(self.profile@.build),
                link_command(self.profile@.build),
                self.profile@.build.commands,
            ),
    {
        let (compile, link) = synthesize(&self.profile.build);
        generate_makefile(&self.profile.build, &compile, &link, &self.profile.build.commands)
    }

    /// The compilation database of the profile for a project directory,
    /// which the caller gives as an absolute path.
    pub fn create_compilation_database(&self, project_path: &str) -> (r: CompilationDatabase)
        ensures
            r@ == database_of(self.profile@.build, project_path@),
    {
        let entry = CompilationEntry {
            directory: project_path.to_owned(),
            command: self.get_compile_command(),
            file: "src/main.c".to_owned(),
        };
        let mut entries: Vec<CompilationEntry> = Vec::new();
        entries.push(entry);
        let r = CompilationDatabase { entries };
        assert(r@ =~= database_of(self.profile@.build, project_path@));
        r
    }
}

/// A request by name resolves to the profile of that name, and a request
/// without a name to the profile of the default name, whenever the names
/// are unique.
pub proof fn lemma_resolution_finds_named(config: ConfigView, requested: Option<Seq<char>>, i: int)
    requires
        names_unique(config.profile),
        0 <= i < config.profile.len(),
        config.profile[i].name == wanted_name(config, requested),
    ensures
        resolution(config, requested) == Ok::<ProfileView, Seq<char>>(config.profile[i]),
{
    let name = wanted_name(config, requested);
    assert(first_named(config.profile, name, i));
    lemma_lookup_first(config.profile, name, i);
}

/// A configuration of one profile that is its own default always resolves
/// to that profile when no name is requested.
pub proof fn lemma_single_resolves(config: ConfigView)
    requires
        config.profile.len() == 1,
        config.profile[0].name == config.default_profile,
    ensures
        resolution(config, None) == Ok::<ProfileView, Seq<char>>(config.profile[0]),
{
    assert(first_named(config.profile, config.default_profile, 0));
    lemma_lookup_first(config.profile, config.default_profile, 0);
}

/// A resolution fails, with the name it looked for, exactly when no
/// profile carries that name; no other profile is picked in its place.
pub proof fn lemma_resolution_fails_closed(config: ConfigView, requested: Option<Seq<char>>)
    ensures
        resolution(config, requested) is Err <==> forall|i: int|
            0 <= i < config.profile.len() ==> config.profile[i].name != wanted_name(
                config,
                requested,
            ),
        resolution(config, requested) matches Err(name) ==> name == wanted_name(config, requested),
        resolution(config, requested) matches Ok(p) ==> p.name == wanted_name(config, requested)
            && config.profile.contains(p),
{
    lemma_lookup_sound(config.profile, wanted_name(config, requested));
}

/// A configuration whose default name no profile carries does not resolve
/// without a requested name: the failure names the default.
pub proof fn lemma_missing_default_fails(config: ConfigView)
    requires
        forall|i: int| 0 <= i < config.profile.len() ==> config.profile[i].name
            != config.default_profile,
    ensures
        resolution(config, None) == Err::<ProfileView, Seq<char>>(config.default_profile),
{
    lemma_lookup_sound(config.profile, config.default_profile);
}

/// The artifacts are functions of what the profile and the path hold: two
/// generations from the same values give the same Makefile and the same
/// compilation database, character for character.
pub proof fn lemma_generation_repeatable(
    first: Profile,
    second: Profile,
    first_path: Seq<char>,
    second_path: Seq<char>,
)
    requires
        first@ == second@,
        first_path == second_path,
    ensures
        compile_command(first@.build) == compile_command(second@.build),
        link_command(first@.build) == link_command(second@.build),
        makefile_text(
            first@.build.main_filename,
            compile_command(first@.build),
            link_command(first@.build),
            first@.build.commands,
        ) == makefile_text(
            second@.build.main_filename,
            compile_command(second@.build),
            link_command(second@.build),
            second@.build.commands,
        ),
        database_of(first@.build, first_path) == database_of(second@.build, second_path),
        crate::database::database_json(database_of(first@.build, first_path))
            == crate::database::database_json(database_of(second@.build, second_path)),
{
}

} // verus!
