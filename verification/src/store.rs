//! Loading a configuration from TOML text and saving it as TOML text.

use vstd::prelude::*;
use crate::config::{
    BuildView, CommandsView, Config, ConfigManager, ConfigView, ProfileView, StructureView,
    ToolView,
};
use crate::decode::{
    decode_commands, decode_compiler, decode_config, decode_hooks, decode_linker, decode_build,
    decode_profile, decode_profiles, decode_structure, decode_tool, invalid, node_texts,
    optional_text_member, profile_of, text_member,
};
use crate::document::{parse_table, parsed, render_table, rendered, Node};
use crate::encode::{
    encode_build, encode_commands, encode_config, encode_profile, encode_profiles,
    encode_structure, encode_texts, encode_tool, lemma_document_textual,
};
use crate::error::{Error, ErrorKind};

verus! {

/// The configuration that a text describes: the text has to be a TOML
/// document, and its root table has to have the shape of a configuration.
pub open spec fn loaded(source: Seq<char>) -> Option<ConfigView> {
    match parsed(source) {
        Some(table) => decode_config(table),
        None => None,
    }
}

/// The text that a configuration is written as: its document, as TOML.
pub open spec fn saved(config: ConfigView) -> Option<Seq<char>> {
    rendered(encode_config(config))
}

impl ConfigManager {
    /// Reads a configuration from TOML text. The text is refused, as an
    /// invalid configuration, when it is no TOML document or when the
    /// document does not have the shape of a configuration; that the default
    /// profile exists is not asked here.
    pub fn parse(source: &str) -> (r: Result<ConfigManager, Error>)
        ensures
            match r {
                Ok(manager) => loaded(source@) == Some(manager.config@),
                Err(e) => e.spec_kind() == ErrorKind::InvalidConfig && loaded(source@) is None,
            },
    {
        match parse_table(source) {
            Some(table) => match Config::from_document(&table) {
                Ok(config) => Ok(ConfigManager::new(config)),
                Err(e) => Err(e),
            },
            None => Err(invalid()),
        }
    }

    /// Writes the configuration as TOML text. Whether the writer succeeds is
    /// the writer's to say; where it does not, the failure is a generation
    /// failure.
    pub fn to_string(&self) -> (r: Result<String, Error>)
        ensures
            match r {
                Ok(text) => saved(self.config@) == Some(text@),
                Err(e) => e.spec_kind() == ErrorKind::GenerationFailure && saved(self.config@)
                    is None,
            },
    {
        let table = self.config.to_document();
        proof {
            lemma_document_textual(self.config@);
        }
        match render_table(&table) {
            Some(text) => Ok(text),
            None => Err(Error::new(ErrorKind::GenerationFailure)),
        }
    }
}

/// A configuration that was written and is read back is the same
/// configuration, field for field, provided that the TOML reader finds in
/// the text the document that the TOML writer was given.
pub proof fn lemma_load_of_saved(config: ConfigView, text: Seq<char>)
    requires
        saved(config) == Some(text),
        parsed(text) == Some(encode_config(config)),
    ensures
        loaded(text) == Some(config),
{
    lemma_config_round_trip(config);
}

/// The keys of one table differ from each other.
proof fn lemma_keys_differ()
    ensures
        "exec"@ != "args"@,
        "pre_build"@ != "post_build"@,
        "compiler"@ != "main_filename"@,
        "compiler"@ != "linker"@,
        "compiler"@ != "target"@,
        "compiler"@ != "commands"@,
        "main_filename"@ != "linker"@,
        "main_filename"@ != "target"@,
        "main_filename"@ != "commands"@,
        "linker"@ != "target"@,
        "linker"@ != "commands"@,
        "target"@ != "commands"@,
        "directories"@ != "files"@,
        "name"@ != "build"@,
        "name"@ != "structure"@,
        "build"@ != "structure"@,
        "default_profile"@ != "profile"@,
{
    reveal_strlit("exec");
    reveal_strlit("args");
    reveal_strlit("pre_build");
    reveal_strlit("post_build");
    reveal_strlit("compiler");
    reveal_strlit("main_filename");
    reveal_strlit("linker");
    reveal_strlit("target");
    reveal_strlit("commands");
    reveal_strlit("directories");
    reveal_strlit("files");
    reveal_strlit("name");
    reveal_strlit("build");
    reveal_strlit("structure");
    reveal_strlit("default_profile");
    reveal_strlit("profile");
    // Keys of one length differ in a character, the others in length.
    assert("exec"@[0] != "args"@[0]);
    assert("compiler"@[3] != "commands"@[3]);
    assert("linker"@[0] != "target"@[0]);
    assert("pre_build"@.len() != "post_build"@.len());
    assert("main_filename"@.len() == 13);
    assert("compiler"@.len() == 8 && "commands"@.len() == 8);
    assert("linker"@.len() == 6 && "target"@.len() == 6);
    assert("directories"@.len() != "files"@.len());
    assert("name"@.len() == 4 && "build"@.len() == 5 && "structure"@.len() == 9);
    assert("default_profile"@.len() != "profile"@.len());
}

/// Reading the table of a tool gives the tool back.
pub proof fn lemma_tool_round_trip(tool: ToolView)
    ensures
        decode_tool(encode_tool(tool)) == Some(tool),
{
    lemma_keys_differ();
}

/// Reading the table of the hooks gives the hooks back.
pub proof fn lemma_commands_round_trip(commands: CommandsView)
    ensures
        decode_commands(encode_commands(commands)) == Some(commands),
{
    lemma_keys_differ();
}

/// Reading the table of a build gives the build back.
pub proof fn lemma_build_round_trip(build: BuildView)
    ensures
        decode_build(encode_build(build)) == Some(build),
{
    lemma_keys_differ();
    lemma_tool_round_trip(build.compiler);
    if build.linker is Some {
        lemma_tool_round_trip(build.linker->0);
    }
    if build.commands is Some {
        lemma_commands_round_trip(build.commands->0);
    }
    let table = encode_build(build);
    assert(decode_compiler(table) == Some(build.compiler));
    assert(decode_linker(table) == Some(build.linker));
    assert(text_member(table, "main_filename"@) == Some(build.main_filename));
    assert(optional_text_member(table, "target"@) == Some(build.target));
    assert(decode_hooks(table) == Some(build.commands));
}

/// Reading an array of strings gives the strings back.
pub proof fn lemma_texts_round_trip(texts: Seq<Seq<char>>)
    ensures
        encode_texts(texts) matches Node::List(items) && node_texts(items) == Some(texts),
{
    let items = encode_texts(texts)->List_0;
    assert(node_texts(items)->0 =~= texts);
}

/// Reading the table of a layout gives the layout back.
pub proof fn lemma_structure_round_trip(structure: StructureView)
    ensures
        decode_structure(encode_structure(structure)) == Some(structure),
{
    lemma_keys_differ();
    lemma_texts_round_trip(structure.directories);
    lemma_texts_round_trip(structure.files);
}

/// Reading the table of a profile gives the profile back.
pub proof fn lemma_profile_round_trip(profile: ProfileView)
    ensures
        decode_profile(encode_profile(profile)) == Some(profile),
{
    lemma_keys_differ();
    lemma_build_round_trip(profile.build);
    lemma_structure_round_trip(profile.structure);
}

/// Reading the document of a configuration gives the configuration back,
/// field for field.
pub proof fn lemma_config_round_trip(config: ConfigView)
    ensures
        decode_config(encode_config(config)) == Some(config),
{
    lemma_keys_differ();
    let items = encode_profiles(config.profile)->List_0;
    assert forall|i: int| 0 <= i < items.len() implies profile_of(#[trigger] items[i]) == Some(
        config.profile[i],
    ) by {
        lemma_profile_round_trip(config.profile[i]);
    }
    assert(decode_profiles(items)->0 =~= config.profile);
}

} // verus!
