//! Writing a configuration as a TOML document.
//!
//! Each part becomes a table with a key for each of its fields; a field
//! that is not set gets no key.

use vstd::prelude::*;
use crate::config::{
    BuildView, CommandsView, Config, ConfigBuild, ConfigBuildCommands, ConfigStructure,
    ConfigView, Profile, ProfileView, StructureView, ToolView, text_of, texts_of,
};
use crate::document::{
    list_value, new_table, nodes_of, table_insert, table_nodes, table_value, text_value, textual,
    value_node, Node,
};

verus! {

/// A table with a string under one more key, where there is a string.
pub open spec fn with_optional_text(
    table: Map<Seq<char>, Node>,
    key: Seq<char>,
    text: Option<Seq<char>>,
) -> Map<Seq<char>, Node> {
    match text {
        Some(t) => table.insert(key, Node::Text(t)),
        None => table,
    }
}

/// The table of a compiler or linker.
pub open spec fn encode_tool(tool: ToolView) -> Map<Seq<char>, Node> {
    Map::empty().insert("exec"@, Node::Text(tool.executable)).insert("args"@, Node::Text(tool.args))
}

/// The table of the hooks: a key for each hook that is set.
pub open spec fn encode_commands(commands: CommandsView) -> Map<Seq<char>, Node> {
    with_optional_text(
        with_optional_text(Map::empty(), "pre_build"@, commands.pre_build),
        "post_build"@,
        commands.post_build,
    )
}

/// A table with the table of a linker under one more key, where there is a
/// linker.
pub open spec fn with_linker(table: Map<Seq<char>, Node>, linker: Option<ToolView>) -> Map<
    Seq<char>,
    Node,
> {
    match linker {
        Some(tool) => table.insert("linker"@, Node::Table(encode_tool(tool))),
        None => table,
    }
}

/// A table with the table of the hooks under one more key, where there are
/// hooks.
pub open spec fn with_hooks(table: Map<Seq<char>, Node>, commands: Option<CommandsView>) -> Map<
    Seq<char>,
    Node,
> {
    match commands {
        Some(c) => table.insert("commands"@, Node::Table(encode_commands(c))),
        None => table,
    }
}

/// The table of a build: the optional parts have a key only where they are
/// set.
pub open spec fn encode_build(build: BuildView) -> Map<Seq<char>, Node> {
    with_hooks(
        with_optional_text(
            with_linker(
                Map::empty().insert("compiler"@, Node::Table(encode_tool(build.compiler))).insert(
                    "main_filename"@,
                    Node::Text(build.main_filename),
                ),
                build.linker,
            ),
            "target"@,
            build.target,
        ),
        build.commands,
    )
}

/// An array of strings.
pub open spec fn encode_texts(texts: Seq<Seq<char>>) -> Node {
    Node::List(Seq::new(texts.len(), |i: int| Node::Text(texts[i])))
}

/// The table of a layout.
pub open spec fn encode_structure(structure: StructureView) -> Map<Seq<char>, Node> {
    Map::empty().insert("directories"@, encode_texts(structure.directories)).insert(
        "files"@,
        encode_texts(structure.files),
    )
}

/// The table of a profile.
pub open spec fn encode_profile(profile: ProfileView) -> Map<Seq<char>, Node> {
    Map::empty().insert("name"@, Node::Text(profile.name)).insert(
        "build"@,
        Node::Table(encode_build(profile.build)),
    ).insert("structure"@, Node::Table(encode_structure(profile.structure)))
}

/// The array of the tables of the profiles, in order.
pub open spec fn encode_profiles(profiles: Seq<ProfileView>) -> Node {
    Node::List(Seq::new(profiles.len(), |i: int| Node::Table(encode_profile(profiles[i]))))
}

/// The root table of the document of a configuration.
pub open spec fn encode_config(config: ConfigView) -> Map<Seq<char>, Node> {
    Map::empty().insert("default_profile"@, Node::Text(config.default_profile)).insert(
        "profile"@,
        encode_profiles(config.profile),
    )
}

fn write_optional_text(
    table: &mut toml::map::Map<String, toml::Value>,
    key: &str,
    text: &Option<String>,
)
    ensures
        table_nodes(*final(table)) == with_optional_text(
            table_nodes(*old(table)),
            key@,
            text_of(*text),
        ),
{
    match text {
        Some(t) => table_insert(table, key, text_value(t.clone())),
        None => {},
    }
}

fn write_tool(executable: &String, args: &String) -> (r: toml::map::Map<String, toml::Value>)
    ensures
        table_nodes(r) == encode_tool(ToolView { executable: executable@, args: args@ }),
{
    let mut table = new_table();
    table_insert(&mut table, "exec", text_value(executable.clone()));
    table_insert(&mut table, "args", text_value(args.clone()));
    table
}

fn write_commands(commands: &ConfigBuildCommands) -> (r: toml::map::Map<String, toml::Value>)
    ensures
        table_nodes(r) == encode_commands(commands@),
{
    let mut table = new_table();
    write_optional_text(&mut table, "pre_build", &commands.pre_build);
    write_optional_text(&mut table, "post_build", &commands.post_build);
    table
}

fn write_build(build: &ConfigBuild) -> (r: toml::map::Map<String, toml::Value>)
    ensures
        table_nodes(r) == encode_build(build@),
{
    let mut table = new_table();
    let compiler = write_tool(&build.compiler.executable, &build.compiler.args);
    table_insert(&mut table, "compiler", table_value(compiler));
    table_insert(&mut table, "main_filename", text_value(build.main_filename.clone()));
    match &build.linker {
        Some(linker) => {
            let inner = write_tool(&linker.executable, &linker.args);
            table_insert(&mut table, "linker", table_value(inner));
        },
        None => {},
    }
    write_optional_text(&mut table, "target", &build.target);
    match &build.commands {
        Some(commands) => {
            let inner = write_commands(commands);
            table_insert(&mut table, "commands", table_value(inner));
        },
        None => {},
    }
    table
}

fn write_texts(texts: &Vec<String>) -> (r: toml::Value)
    ensures
        value_node(r) == encode_texts(texts_of(texts@)),
{
    let mut items: Vec<toml::Value> = Vec::new();
    let mut i: usize = 0;
    while i < texts.len()
        invariant
            i <= texts@.len(),
            items@.len() == i,
            forall|j: int| 0 <= j < i ==> value_node(#[trigger] items@[j]) == Node::Text(texts@[j]@),
        decreases texts.len() - i,
    {
        items.push(text_value(texts[i].clone()));
        i += 1;
    }
    assert(nodes_of(items@) =~= Seq::new(
        texts_of(texts@).len(),
        |i: int| Node::Text(texts_of(texts@)[i]),
    ));
    list_value(items)
}

fn write_structure(structure: &ConfigStructure) -> (r: toml::map::Map<String, toml::Value>)
    ensures
        table_nodes(r) == encode_structure(structure@),
{
    let mut table = new_table();
    table_insert(&mut table, "directories", write_texts(&structure.directories));
    table_insert(&mut table, "files", write_texts(&structure.files));
    table
}

fn write_profile(profile: &Profile) -> (r: toml::map::Map<String, toml::Value>)
    ensures
        table_nodes(r) == encode_profile(profile@),
{
    let mut table = new_table();
    table_insert(&mut table, "name", text_value(profile.name.clone()));
    table_insert(&mut table, "build", table_value(write_build(&profile.build)));
    table_insert(&mut table, "structure", table_value(write_structure(&profile.structure)));
    table
}

impl Config {
    /// The root table of the document of the configuration.
    pub fn to_document(&self) -> (r: toml::map::Map<String, toml::Value>)
        ensures
            table_nodes(r) == encode_config(self@),
    {
        let mut items: Vec<toml::Value> = Vec::new();
        let mut i: usize = 0;
        while i < self.profile.len()
            invariant
                i <= self.profile@.len(),
                items@.len() == i,
                forall|j: int| 0 <= j < i ==> value_node(#[trigger] items@[j]) == Node::Table(
                    encode_profile(self.profile@[j]@),
                ),
            decreases self.profile.len() - i,
        {
            items.push(table_value(write_profile(&self.profile[i])));
            i += 1;
        }
        assert(nodes_of(items@) =~= Seq::new(
            self@.profile.len(),
            |i: int| Node::Table(encode_profile(self@.profile[i])),
        ));
        let mut table = new_table();
        table_insert(&mut table, "default_profile", text_value(self.default_profile.clone()));
        table_insert(&mut table, "profile", list_value(items));
        table
    }
}

/// A table of strings, arrays and tables stays one when such a node is put
/// under a key.
proof fn lemma_textual_insert(table: Map<Seq<char>, Node>, key: Seq<char>, node: Node)
    requires
        textual(Node::Table(table)),
        textual(node),
    ensures
        textual(Node::Table(table.insert(key, node))),
{
    let after = table.insert(key, node);
    assert forall|k: Seq<char>| after.dom().contains(k) implies textual(#[trigger] after[k]) by {
        if k != key {
            assert(table.dom().contains(k));
            assert(Node::Table(table)->Table_0 == table);
            assert(textual(table[k]));
        }
    }
}

proof fn lemma_textual_optional_text(table: Map<Seq<char>, Node>, key: Seq<char>, text: Option<Seq<char>>)
    requires
        textual(Node::Table(table)),
    ensures
        textual(Node::Table(with_optional_text(table, key, text))),
{
    if text is Some {
        lemma_textual_insert(table, key, Node::Text(text->0));
    }
}

proof fn lemma_tool_textual(tool: ToolView)
    ensures
        textual(Node::Table(encode_tool(tool))),
{
    let empty = Map::<Seq<char>, Node>::empty();
    lemma_textual_insert(empty, "exec"@, Node::Text(tool.executable));
    lemma_textual_insert(
        empty.insert("exec"@, Node::Text(tool.executable)),
        "args"@,
        Node::Text(tool.args),
    );
}

proof fn lemma_commands_textual(commands: CommandsView)
    ensures
        textual(Node::Table(encode_commands(commands))),
{
    let empty = Map::<Seq<char>, Node>::empty();
    lemma_textual_optional_text(empty, "pre_build"@, commands.pre_build);
    lemma_textual_optional_text(
        with_optional_text(empty, "pre_build"@, commands.pre_build),
        "post_build"@,
        commands.post_build,
    );
}

proof fn lemma_build_textual(build: BuildView)
    ensures
        textual(Node::Table(encode_build(build))),
{
    let empty = Map::<Seq<char>, Node>::empty();
    lemma_tool_textual(build.compiler);
    let first = empty.insert("compiler"@, Node::Table(encode_tool(build.compiler)));
    lemma_textual_insert(empty, "compiler"@, Node::Table(encode_tool(build.compiler)));
    let second = first.insert("main_filename"@, Node::Text(build.main_filename));
    lemma_textual_insert(first, "main_filename"@, Node::Text(build.main_filename));
    let third = with_linker(second, build.linker);
    if build.linker is Some {
        lemma_tool_textual(build.linker->0);
        lemma_textual_insert(second, "linker"@, Node::Table(encode_tool(build.linker->0)));
    }
    let fourth = with_optional_text(third, "target"@, build.target);
    lemma_textual_optional_text(third, "target"@, build.target);
    if build.commands is Some {
        lemma_commands_textual(build.commands->0);
        lemma_textual_insert(fourth, "commands"@, Node::Table(encode_commands(build.commands->0)));
    }
}

proof fn lemma_texts_textual(texts: Seq<Seq<char>>)
    ensures
        textual(encode_texts(texts)),
{
    let items = encode_texts(texts)->List_0;
    assert forall|i: int| 0 <= i < items.len() implies textual(#[trigger] items[i]) by {
        assert(items[i] == Node::Text(texts[i]));
    }
}

proof fn lemma_structure_textual(structure: StructureView)
    ensures
        textual(Node::Table(encode_structure(structure))),
{
    let empty = Map::<Seq<char>, Node>::empty();
    lemma_texts_textual(structure.directories);
    lemma_texts_textual(structure.files);
    lemma_textual_insert(empty, "directories"@, encode_texts(structure.directories));
    lemma_textual_insert(
        empty.insert("directories"@, encode_texts(structure.directories)),
        "files"@,
        encode_texts(structure.files),
    );
}

proof fn lemma_profile_textual(profile: ProfileView)
    ensures
        textual(Node::Table(encode_profile(profile))),
{
    let empty = Map::<Seq<char>, Node>::empty();
    lemma_build_textual(profile.build);
    lemma_structure_textual(profile.structure);
    let first = empty.insert("name"@, Node::Text(profile.name));
    lemma_textual_insert(empty, "name"@, Node::Text(profile.name));
    let second = first.insert("build"@, Node::Table(encode_build(profile.build)));
    lemma_textual_insert(first, "build"@, Node::Table(encode_build(profile.build)));
    lemma_textual_insert(
        second,
        "structure"@,
        Node::Table(encode_structure(profile.structure)),
    );
}

/// The document of a configuration holds strings, arrays and tables, and
/// nothing else.
pub proof fn lemma_document_textual(config: ConfigView)
    ensures
        textual(Node::Table(encode_config(config))),
{
    let empty = Map::<Seq<char>, Node>::empty();
    let items = encode_profiles(config.profile)->List_0;
    assert forall|i: int| 0 <= i < items.len() implies textual(#[trigger] items[i]) by {
        lemma_profile_textual(config.profile[i]);
    }
    assert(textual(encode_profiles(config.profile)));
    let first = empty.insert("default_profile"@, Node::Text(config.default_profile));
    lemma_textual_insert(empty, "default_profile"@, Node::Text(config.default_profile));
    lemma_textual_insert(first, "profile"@, encode_profiles(config.profile));
}

} // verus!
