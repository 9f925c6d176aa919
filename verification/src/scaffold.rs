//! What a fresh project starts from: the configuration of a first run, the
//! decision on the destination directory, the ignore file.

use vstd::prelude::*;
use crate::config::{
    BuildView, Config, ConfigBuild, ConfigBuildCompiler, ConfigStructure, ConfigView, Profile,
    ProfileView, StructureView, ToolView,
};
use crate::error::{Error, ErrorKind};

verus! {

/// The configuration that is written when there is none yet: one profile,
/// `template`, that compiles `main` with clang into `target/`.
pub open spec fn template_view() -> ConfigView {
    ConfigView {
        default_profile: "template"@,
        profile: seq![
            ProfileView {
                name: "template"@,
                build: BuildView {
                    compiler: ToolView {
                        executable: "clang"@,
                        args: "-Iinclude -o target/main"@,
                    },
                    linker: None,
                    main_filename: "main"@,
                    target: None,
                    commands: None,
                },
                structure: StructureView {
                    directories: seq!["src/"@, "target/"@, "include/"@],
                    files: seq!["src/main.c"@],
                },
            },
        ],
    }
}

/// Builds the configuration of a first run.
pub fn template_config() -> (r: Config)
    ensures
        r@ == template_view(),
{
    let mut directories: Vec<String> = Vec::new();
    directories.push("src/".to_owned());
    directories.push("target/".to_owned());
    directories.push("include/".to_owned());
    let mut files: Vec<String> = Vec::new();
    files.push("src/main.c".to_owned());
    let template = Profile {
        name: "template".to_owned(),
        build: ConfigBuild {
            compiler: ConfigBuildCompiler {
                executable: "clang".to_owned(),
                args: "-Iinclude -o target/main".to_owned(),
            },
            linker: None,
            main_filename: "main".to_owned(),
            target: None,
            commands: None,
        },
        structure: ConfigStructure { directories, files },
    };
    let mut profile: Vec<Profile> = Vec::new();
    profile.push(template);
    let r = Config { default_profile: "template".to_owned(), profile };
    assert(r@.profile[0].structure.directories =~= seq!["src/"@, "target/"@, "include/"@]);
    assert(r@.profile[0].structure.files =~= seq!["src/main.c"@]);
    assert(r@.profile =~= template_view().profile);
    r
}

/// What to do with the destination before the project is laid out.
#[derive(Debug, PartialEq, Eq, Structural)]
pub enum Preparation {
    /// Nothing is there: make the directory.
    Create,
    /// A directory is there and may be overwritten: remove it first.
    Replace,
}

/// The decision on a destination: a file is never a destination, and what
/// exists is replaced only when that was asked for.
pub open spec fn preparation(is_file: bool, exists: bool, force: bool) -> Result<
    Preparation,
    ErrorKind,
> {
    if is_file {
        Err(ErrorKind::IsNotADirectory)
    } else if exists && force {
        Ok(Preparation::Replace)
    } else if exists {
        Err(ErrorKind::AlreadyExists)
    } else {
        Ok(Preparation::Create)
    }
}

/// Decides what to do with the destination, from what is found there and
/// whether overwriting was asked for.
pub fn prepare_destination(is_file: bool, exists: bool, force: bool) -> (r: Result<
    Preparation,
    Error,
>)
    ensures
        match r {
            Ok(p) => preparation(is_file, exists, force) == Ok::<Preparation, ErrorKind>(p),
            Err(e) => preparation(is_file, exists, force) == Err::<Preparation, ErrorKind>(
                e.spec_kind(),
            ),
        },
{
    if is_file {
        Err(Error::new(ErrorKind::IsNotADirectory))
    } else if exists && force {
        Ok(Preparation::Replace)
    } else if exists {
        Err(Error::new(ErrorKind::AlreadyExists))
    } else {
        Ok(Preparation::Create)
    }
}

/// The ignore file of a fresh repository.
pub fn gitignore() -> (r: &'static str)
    ensures
        r@ == ".build/\ncompile_commands.json\n.clang-format"@,
{
    ".build/\ncompile_commands.json\n.clang-format"
}

} // verus!
