//! Reading a configuration from a TOML document.
//!
//! A document has the shape of a configuration when every required key is
//! there with a value of the right kind, and every optional key that is
//! there has one too. Keys that the configuration does not know are passed
//! over. Nothing is repaired: a document of another shape is refused whole.

use vstd::prelude::*;
use crate::config::{
    BuildView, CommandsView, Config, ConfigBuild, ConfigBuildCommands, ConfigBuildCompiler,
    ConfigBuildLinker, ConfigStructure, ConfigView, Profile, ProfileView, StructureView, ToolView,
    text_of, texts_of,
};
use crate::document::{
    nodes_of, table_get, table_nodes, value_items, value_table, value_text, Node,
};
use crate::error::{Error, ErrorKind};

verus! {

/// What stands under a key of a table, if the key is there.
pub open spec fn member(table: Map<Seq<char>, Node>, key: Seq<char>) -> Option<Node> {
    if table.dom().contains(key) {
        Some(table[key])
    } else {
        None
    }
}

/// The string under a required key.
pub open spec fn text_member(table: Map<Seq<char>, Node>, key: Seq<char>) -> Option<Seq<char>> {
    match member(table, key) {
        Some(Node::Text(text)) => Some(text),
        _ => None,
    }
}

/// The string under an optional key: none where the key is missing, and no
/// answer where something else than a string stands under it.
pub open spec fn optional_text_member(table: Map<Seq<char>, Node>, key: Seq<char>) -> Option<
    Option<Seq<char>>,
> {
    match member(table, key) {
        None => Some(None),
        Some(Node::Text(text)) => Some(Some(text)),
        Some(_) => None,
    }
}

/// The table under a required key.
pub open spec fn table_member(table: Map<Seq<char>, Node>, key: Seq<char>) -> Option<
    Map<Seq<char>, Node>,
> {
    match member(table, key) {
        Some(Node::Table(inner)) => Some(inner),
        _ => None,
    }
}

/// The table under an optional key: none where the key is missing, and no
/// answer where something else than a table stands under it.
pub open spec fn optional_table_member(table: Map<Seq<char>, Node>, key: Seq<char>) -> Option<
    Option<Map<Seq<char>, Node>>,
> {
    match member(table, key) {
        None => Some(None),
        Some(Node::Table(inner)) => Some(Some(inner)),
        Some(_) => None,
    }
}

/// The strings of an array that holds nothing but strings.
pub open spec fn node_texts(items: Seq<Node>) -> Option<Seq<Seq<char>>> {
    if forall|i: int| 0 <= i < items.len() ==> #[trigger] items[i] is Text {
        Some(Seq::new(items.len(), |i: int| items[i]->Text_0))
    } else {
        None
    }
}

/// The strings of the array under a required key.
pub open spec fn texts_member(table: Map<Seq<char>, Node>, key: Seq<char>) -> Option<
    Seq<Seq<char>>,
> {
    match member(table, key) {
        Some(Node::List(items)) => node_texts(items),
        _ => None,
    }
}

/// The failure of every refused document.
pub fn invalid() -> (r: Error)
    ensures
        r.spec_kind() == ErrorKind::InvalidConfig,
{
    Error::new(ErrorKind::InvalidConfig)
}

/// Whether a result is the decoded value, or the refusal where there is
/// none.
pub open spec fn decoded<T: View>(r: Result<T, Error>, wanted: Option<T::V>) -> bool {
    match r {
        Ok(value) => wanted == Some(value@),
        Err(e) => e.spec_kind() == ErrorKind::InvalidConfig && wanted is None,
    }
}

fn required_text(table: &toml::map::Map<String, toml::Value>, key: &str) -> (r: Result<String, Error>)
    ensures
        decoded(r, text_member(table_nodes(*table), key@)),
{
    match table_get(table, key) {
        Some(value) => match value_text(value) {
            Some(text) => Ok(text.to_owned()),
            None => Err(invalid()),
        },
        None => Err(invalid()),
    }
}

fn optional_text(table: &toml::map::Map<String, toml::Value>, key: &str) -> (r: Result<
    Option<String>,
    Error,
>)
    ensures
        match r {
            Ok(text) => optional_text_member(table_nodes(*table), key@) == Some(text_of(text)),
            Err(e) => e.spec_kind() == ErrorKind::InvalidConfig && optional_text_member(
                table_nodes(*table),
                key@,
            ) is None,
        },
{
    match table_get(table, key) {
        Some(value) => match value_text(value) {
            Some(text) => Ok(Some(text.to_owned())),
            None => Err(invalid()),
        },
        None => Ok(None),
    }
}

fn required_table<'a>(table: &'a toml::map::Map<String, toml::Value>, key: &str) -> (r: Result<
    &'a toml::map::Map<String, toml::Value>,
    Error,
>)
    ensures
        match r {
            Ok(inner) => table_member(table_nodes(*table), key@) == Some(table_nodes(*inner)),
            Err(e) => e.spec_kind() == ErrorKind::InvalidConfig && table_member(
                table_nodes(*table),
                key@,
            ) is None,
        },
{
    match table_get(table, key) {
        Some(value) => match value_table(value) {
            Some(inner) => Ok(inner),
            None => Err(invalid()),
        },
        None => Err(invalid()),
    }
}

fn optional_table<'a>(table: &'a toml::map::Map<String, toml::Value>, key: &str) -> (r: Result<
    Option<&'a toml::map::Map<String, toml::Value>>,
    Error,
>)
    ensures
        match r {
            Ok(Some(inner)) => optional_table_member(table_nodes(*table), key@) == Some(
                Some(table_nodes(*inner)),
            ),
            Ok(None) => optional_table_member(table_nodes(*table), key@) == Some(
                None::<Map<Seq<char>, Node>>,
            ),
            Err(e) => e.spec_kind() == ErrorKind::InvalidConfig && optional_table_member(
                table_nodes(*table),
                key@,
            ) is None,
        },
{
    match table_get(table, key) {
        Some(value) => match value_table(value) {
            Some(inner) => Ok(Some(inner)),
            None => Err(invalid()),
        },
        None => Ok(None),
    }
}

fn required_texts(table: &toml::map::Map<String, toml::Value>, key: &str) -> (r: Result<
    Vec<String>,
    Error,
>)
    ensures
        match r {
            Ok(texts) => texts_member(table_nodes(*table), key@) == Some(texts_of(texts@)),
            Err(e) => e.spec_kind() == ErrorKind::InvalidConfig && texts_member(
                table_nodes(*table),
                key@,
            ) is None,
        },
{
    let items = match table_get(table, key) {
        Some(value) => match value_items(value) {
            Some(items) => items,
            None => { return Err(invalid()); },
        },
        None => { return Err(invalid()); },
    };
    let ghost nodes = nodes_of(items@);
    let mut texts: Vec<String> = Vec::new();
    let mut i: usize = 0;
    while i < items.len()
        invariant
            i <= items@.len(),
            nodes == nodes_of(items@),
            texts_member(table_nodes(*table), key@) == node_texts(nodes),
            texts@.len() == i,
            forall|j: int| 0 <= j < i ==> #[trigger] nodes[j] == Node::Text(texts@[j]@),
        decreases items.len() - i,
    {
        match value_text(&items[i]) {
            Some(text) => texts.push(text.to_owned()),
            None => {
                assert(!(nodes[i as int] is Text));
                return Err(invalid());
            },
        }
        i += 1;
    }
    assert(node_texts(nodes) == Some(texts_of(texts@))) by {
        assert forall|j: int| 0 <= j < nodes.len() implies #[trigger] nodes[j] is Text by {
            assert(nodes[j] == Node::Text(texts@[j]@));
        }
        assert(node_texts(nodes)->0 =~= texts_of(texts@));
    }
    Ok(texts)
}

/// The compiler or linker that a table describes.
pub open spec fn decode_tool(table: Map<Seq<char>, Node>) -> Option<ToolView> {
    match (text_member(table, "exec"@), text_member(table, "args"@)) {
        (Some(executable), Some(args)) => Some(ToolView { executable, args }),
        _ => None,
    }
}

/// The hooks that a table describes.
pub open spec fn decode_commands(table: Map<Seq<char>, Node>) -> Option<CommandsView> {
    match (
        optional_text_member(table, "pre_build"@),
        optional_text_member(table, "post_build"@),
    ) {
        (Some(pre_build), Some(post_build)) => Some(CommandsView { pre_build, post_build }),
        _ => None,
    }
}

/// The linker under the optional key `linker`.
pub open spec fn decode_linker(table: Map<Seq<char>, Node>) -> Option<Option<ToolView>> {
    match optional_table_member(table, "linker"@) {
        Some(Some(inner)) => match decode_tool(inner) {
            Some(tool) => Some(Some(tool)),
            None => None,
        },
        Some(None) => Some(None),
        None => None,
    }
}

/// The hooks under the optional key `commands`.
pub open spec fn decode_hooks(table: Map<Seq<char>, Node>) -> Option<Option<CommandsView>> {
    match optional_table_member(table, "commands"@) {
        Some(Some(inner)) => match decode_commands(inner) {
            Some(commands) => Some(Some(commands)),
            None => None,
        },
        Some(None) => Some(None),
        None => None,
    }
}

/// The compiler under the required key `compiler`.
pub open spec fn decode_compiler(table: Map<Seq<char>, Node>) -> Option<ToolView> {
    match table_member(table, "compiler"@) {
        Some(inner) => decode_tool(inner),
        None => None,
    }
}

/// The build that a table describes.
pub open spec fn decode_build(table: Map<Seq<char>, Node>) -> Option<BuildView> {
    match (
        decode_compiler(table),
        decode_linker(table),
        text_member(table, "main_filename"@),
        optional_text_member(table, "target"@),
        decode_hooks(table),
    ) {
        (Some(compiler), Some(linker), Some(main_filename), Some(target), Some(commands)) => Some(
            BuildView { compiler, linker, main_filename, target, commands },
        ),
        _ => None,
    }
}

/// The layout that a table describes.
pub open spec fn decode_structure(table: Map<Seq<char>, Node>) -> Option<StructureView> {
    match (texts_member(table, "directories"@), texts_member(table, "files"@)) {
        (Some(directories), Some(files)) => Some(StructureView { directories, files }),
        _ => None,
    }
}

/// The profile that a table describes.
pub open spec fn decode_profile(table: Map<Seq<char>, Node>) -> Option<ProfileView> {
    match (
        text_member(table, "name"@),
        table_member(table, "build"@),
        table_member(table, "structure"@),
    ) {
        (Some(name), Some(build_table), Some(structure_table)) => match (
            decode_build(build_table),
            decode_structure(structure_table),
        ) {
            (Some(build), Some(structure)) => Some(ProfileView { name, build, structure }),
            _ => None,
        },
        _ => None,
    }
}

/// The profile that a node describes, which has to be a table.
pub open spec fn profile_of(node: Node) -> Option<ProfileView> {
    match node {
        Node::Table(table) => decode_profile(table),
        _ => None,
    }
}

/// The profiles that the items of an array describe, in order.
pub open spec fn decode_profiles(items: Seq<Node>) -> Option<Seq<ProfileView>> {
    if forall|i: int| 0 <= i < items.len() ==> profile_of(#[trigger] items[i]) is Some {
        Some(Seq::new(items.len(), |i: int| profile_of(items[i])->0))
    } else {
        None
    }
}

/// The configuration that the root table of a document describes.
pub open spec fn decode_config(table: Map<Seq<char>, Node>) -> Option<ConfigView> {
    match (text_member(table, "default_profile"@), member(table, "profile"@)) {
        (Some(default_profile), Some(Node::List(items))) => match decode_profiles(items) {
            Some(profile) => Some(ConfigView { default_profile, profile }),
            None => None,
        },
        _ => None,
    }
}

fn read_compiler(table: &toml::map::Map<String, toml::Value>) -> (r: Result<
    ConfigBuildCompiler,
    Error,
>)
    ensures
        decoded(r, decode_tool(table_nodes(*table))),
{
    let executable = required_text(table, "exec")?;
    let args = required_text(table, "args")?;
    Ok(ConfigBuildCompiler { executable, args })
}

fn read_linker(table: &toml::map::Map<String, toml::Value>) -> (r: Result<ConfigBuildLinker, Error>)
    ensures
        decoded(r, decode_tool(table_nodes(*table))),
{
    let executable = required_text(table, "exec")?;
    let args = required_text(table, "args")?;
    Ok(ConfigBuildLinker { executable, args })
}

fn read_commands(table: &toml::map::Map<String, toml::Value>) -> (r: Result<
    ConfigBuildCommands,
    Error,
>)
    ensures
        decoded(r, decode_commands(table_nodes(*table))),
{
    let pre_build = optional_text(table, "pre_build")?;
    let post_build = optional_text(table, "post_build")?;
    Ok(ConfigBuildCommands { pre_build, post_build })
}

fn read_build(table: &toml::map::Map<String, toml::Value>) -> (r: Result<ConfigBuild, Error>)
    ensures
        decoded(r, decode_build(table_nodes(*table))),
{
    let compiler = read_compiler(required_table(table, "compiler")?)?;
    let linker = match optional_table(table, "linker")? {
        Some(inner) => Some(read_linker(inner)?),
        None => None,
    };
    let main_filename = required_text(table, "main_filename")?;
    let target = optional_text(table, "target")?;
    let commands = match optional_table(table, "commands")? {
        Some(inner) => Some(read_commands(inner)?),
        None => None,
    };
    Ok(ConfigBuild { compiler, linker, main_filename, target, commands })
}

fn read_structure(table: &toml::map::Map<String, toml::Value>) -> (r: Result<ConfigStructure, Error>)
    ensures
        decoded(r, decode_structure(table_nodes(*table))),
{
    let directories = required_texts(table, "directories")?;
    let files = required_texts(table, "files")?;
    Ok(ConfigStructure { directories, files })
}

fn read_profile(table: &toml::map::Map<String, toml::Value>) -> (r: Result<Profile, Error>)
    ensures
        decoded(r, decode_profile(table_nodes(*table))),
{
    let name = required_text(table, "name")?;
    let build = read_build(required_table(table, "build")?)?;
    let structure = read_structure(required_table(table, "structure")?)?;
    Ok(Profile { name, build, structure })
}

impl Config {
    /// Reads a configuration from the root table of a document. It is
    /// refused, as an invalid configuration, exactly when the table does not
    /// have the shape of one.
    pub fn from_document(table: &toml::map::Map<String, toml::Value>) -> (r: Result<Config, Error>)
        ensures
            decoded(r, decode_config(table_nodes(*table))),
    {
        let default_profile = required_text(table, "default_profile")?;
        let items = match table_get(table, "profile") {
            Some(value) => match value_items(value) {
                Some(items) => items,
                None => { return Err(invalid()); },
            },
            None => { return Err(invalid()); },
        };
        let ghost nodes = nodes_of(items@);
        let mut profile: Vec<Profile> = Vec::new();
        let mut i: usize = 0;
        while i < items.len()
            invariant
                i <= items@.len(),
                nodes == nodes_of(items@),
                member(table_nodes(*table), "profile"@) == Some(Node::List(nodes)),
                text_member(table_nodes(*table), "default_profile"@) == Some(default_profile@),
                profile@.len() == i,
                forall|j: int| 0 <= j < i ==> profile_of(#[trigger] nodes[j]) == Some(profile@[j]@),
            decreases items.len() - i,
        {
            let inner = match value_table(&items[i]) {
                Some(inner) => inner,
                None => {
                    assert(profile_of(nodes[i as int]) is None);
                    return Err(invalid());
                },
            };
            match read_profile(inner) {
                Ok(p) => profile.push(p),
                Err(e) => {
                    assert(profile_of(nodes[i as int]) is None);
                    return Err(e);
                },
            }
            i += 1;
        }
        let config = Config { default_profile, profile };
        assert(decode_profiles(nodes) == Some(config@.profile)) by {
            assert forall|j: int| 0 <= j < nodes.len() implies profile_of(#[trigger] nodes[j]) is Some by {
                assert(profile_of(nodes[j]) == Some(config.profile@[j]@));
            }
            assert(decode_profiles(nodes)->0 =~= config@.profile);
        }
        Ok(config)
    }
}

} // verus!
