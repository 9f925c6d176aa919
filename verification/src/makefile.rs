//! The Makefile of a project: one rule for the object file, and a `build`
//! target that runs the hooks around the compile command.

use vstd::prelude::*;
use crate::config::{text_of, texts_of, CommandsView, ConfigBuild, ConfigBuildCommands};
use crate::text::{
    join, join_lines, lemma_lines_of_joined, lemma_one_line_joined, lines_of, one_line,
};

verus! {

/// Where the object file of the main file goes.
pub open spec fn object_path(main_filename: Seq<char>) -> Seq<char> {
    "target/"@ + main_filename + ".o"@
}

/// Where the source of the main file is.
pub open spec fn source_path(main_filename: Seq<char>) -> Seq<char> {
    "src/"@ + main_filename + ".c"@
}

/// The rule line that makes the object file depend on the source.
pub open spec fn object_rule(main_filename: Seq<char>) -> Seq<char> {
    object_path(main_filename) + ": "@ + source_path(main_filename)
}

/// The rule line of the `build` target.
pub open spec fn build_rule(main_filename: Seq<char>) -> Seq<char> {
    "build: "@ + object_path(main_filename)
}

/// A command as a recipe line: one tab in front of it.
pub open spec fn recipe(command: Seq<char>) -> Seq<char> {
    "\t"@ + command
}

/// The recipe line of a hook, if the hook is set.
pub open spec fn hook_lines(hook: Option<Seq<char>>) -> Seq<Seq<char>> {
    match hook {
        Some(command) => seq![recipe(command)],
        None => Seq::empty(),
    }
}

/// The hook that runs before the compile command, if any.
pub open spec fn pre_hook(commands: Option<CommandsView>) -> Option<Seq<char>> {
    match commands {
        Some(c) => c.pre_build,
        None => None,
    }
}

/// The hook that runs after the compile command, if any.
pub open spec fn post_hook(commands: Option<CommandsView>) -> Option<Seq<char>> {
    match commands {
        Some(c) => c.post_build,
        None => None,
    }
}

/// The recipe of the `build` target: the pre-build hook, the compile
/// command, the post-build hook, in this order.
pub open spec fn build_recipe(compile: Seq<char>, commands: Option<CommandsView>) -> Seq<Seq<char>> {
    hook_lines(pre_hook(commands)) + seq![recipe(compile)] + hook_lines(post_hook(commands))
}

/// The command that makes the object file: the link command where there is
/// one, else the compile command.
pub open spec fn object_command(compile: Seq<char>, link: Option<Seq<char>>) -> Seq<char> {
    match link {
        Some(l) => l,
        None => compile,
    }
}

/// The lines of the Makefile.
pub open spec fn makefile_lines(
    main_filename: Seq<char>,
    compile: Seq<char>,
    link: Option<Seq<char>>,
    commands: Option<CommandsView>,
) -> Seq<Seq<char>> {
    seq![
        object_rule(main_filename),
        recipe(object_command(compile, link)),
        build_rule(main_filename),
    ] + build_recipe(compile, commands)
}

/// The Makefile as text.
pub open spec fn makefile_text(
    main_filename: Seq<char>,
    compile: Seq<char>,
    link: Option<Seq<char>>,
    commands: Option<CommandsView>,
) -> Seq<char> {
    join_lines(makefile_lines(main_filename, compile, link, commands))
}

/// The view of optional hooks.
pub open spec fn commands_of(commands: Option<ConfigBuildCommands>) -> Option<CommandsView> {
    match commands {
        Some(c) => Some(c@),
        None => None,
    }
}

fn object_file(main_filename: &String) -> (r: String)
    ensures
        r@ == object_path(main_filename@),
{
    let mut r = "target/".to_owned();
    r.append(main_filename.as_str());
    r.append(".o");
    r
}

fn recipe_line(command: &String) -> (r: String)
    ensures
        r@ == recipe(command@),
{
    let mut r = "\t".to_owned();
    r.append(command.as_str());
    r
}

fn push_hook(lines: &mut Vec<String>, hook: &Option<String>)
    ensures
        texts_of(final(lines)@) == texts_of(old(lines)@) + hook_lines(text_of(*hook)),
{
    match hook {
        Some(command) => {
            let line = recipe_line(command);
            lines.push(line);
        },
        None => {},
    }
    assert(texts_of(lines@) =~= texts_of(old(lines)@) + hook_lines(text_of(*hook)));
}

/// Writes the Makefile for a build, from its commands and hooks.
pub fn generate_makefile(
    build: &ConfigBuild,
    compile_command: &String,
    link_command: &Option<String>,
    commands: &Option<ConfigBuildCommands>,
) -> (r: String)
    ensures
        r@ == makefile_text(
            build.main_filename@,
            compile_command@,
            text_of(*link_command),
            commands_of(*commands),
        ),
{
    let object = object_file(&build.main_filename);
    let mut rule = object.clone();
    rule.append(": ");
    rule.append("src/");
    rule.append(build.main_filename.as_str());
    rule.append(".c");
    assert(rule@ =~= object_rule(build.main_filename@));
    let mut target = "build: ".to_owned();
    target.append(object.as_str());
    let mut lines: Vec<String> = Vec::new();
    lines.push(rule);
    match link_command {
        Some(l) => lines.push(recipe_line(l)),
        None => lines.push(recipe_line(compile_command)),
    }
    lines.push(target);
    assert(texts_of(lines@) =~= seq![
        object_rule(build.main_filename@),
        recipe(object_command(compile_command@, text_of(*link_command))),
        build_rule(build.main_filename@),
    ]);
    let ghost head = texts_of(lines@);
    let none: Option<String> = None;
    let (pre, post) = match commands {
        Some(c) => (&c.pre_build, &c.post_build),
        None => (&none, &none),
    };
    push_hook(&mut lines, pre);
    let ghost before = texts_of(lines@);
    lines.push(recipe_line(compile_command));
    assert(texts_of(lines@) =~= before + seq![recipe(compile_command@)]);
    push_hook(&mut lines, post);
    assert(texts_of(lines@) =~= head + build_recipe(compile_command@, commands_of(*commands)));
    join(&lines, "\n")
}

/// Whichever hooks are set, the recipe of the `build` target follows the
/// rule line of that target and holds the pre-build hook, the compile
/// command and the post-build hook in this order, with nothing else.
pub proof fn lemma_build_recipe_order(
    main_filename: Seq<char>,
    compile: Seq<char>,
    link: Option<Seq<char>>,
    commands: Option<CommandsView>,
)
    ensures
        ({
            let lines = makefile_lines(main_filename, compile, link, commands);
            let pre = pre_hook(commands);
            let post = post_hook(commands);
            let at = if pre is Some { 4int } else { 3int };
            &&& lines.len() == at + 1 + if post is Some { 1int } else { 0int }
            &&& lines[2] == build_rule(main_filename)
            &&& pre is Some ==> lines[3] == recipe(pre->0)
            &&& lines[at] == recipe(compile)
            &&& post is Some ==> lines[at + 1] == recipe(post->0)
        }),
{
}

/// Whether an optional text, where there is one, holds no newline.
pub open spec fn one_line_if_set(text: Option<Seq<char>>) -> bool {
    match text {
        Some(t) => one_line(t),
        None => true,
    }
}

proof fn lemma_recipe_one_line(command: Seq<char>)
    requires
        one_line(command),
    ensures
        one_line(recipe(command)),
{
    reveal_strlit("\t");
    assert(one_line("\t"@)) by {
        assert forall|i: int| 0 <= i < "\t"@.len() implies "\t"@[i] != '\n' by {}
    }
    lemma_one_line_joined("\t"@, command);
}

proof fn lemma_rules_one_line(main_filename: Seq<char>)
    requires
        one_line(main_filename),
    ensures
        one_line(object_rule(main_filename)),
        one_line(build_rule(main_filename)),
{
    reveal_strlit("target/");
    reveal_strlit(".o");
    reveal_strlit(": ");
    reveal_strlit("src/");
    reveal_strlit(".c");
    reveal_strlit("build: ");
    assert(one_line("target/"@)) by {
        assert forall|i: int| 0 <= i < "target/"@.len() implies "target/"@[i] != '\n' by {}
    }
    assert(one_line(".o"@)) by {
        assert forall|i: int| 0 <= i < ".o"@.len() implies ".o"@[i] != '\n' by {}
    }
    assert(one_line(": "@)) by {
        assert forall|i: int| 0 <= i < ": "@.len() implies ": "@[i] != '\n' by {}
    }
    assert(one_line("src/"@)) by {
        assert forall|i: int| 0 <= i < "src/"@.len() implies "src/"@[i] != '\n' by {}
    }
    assert(one_line(".c"@)) by {
        assert forall|i: int| 0 <= i < ".c"@.len() implies ".c"@[i] != '\n' by {}
    }
    assert(one_line("build: "@)) by {
        assert forall|i: int| 0 <= i < "build: "@.len() implies "build: "@[i] != '\n' by {}
    }
    lemma_one_line_joined("target/"@, main_filename);
    lemma_one_line_joined("target/"@ + main_filename, ".o"@);
    lemma_one_line_joined("src/"@, main_filename);
    lemma_one_line_joined("src/"@ + main_filename, ".c"@);
    lemma_one_line_joined(object_path(main_filename), ": "@);
    lemma_one_line_joined(object_path(main_filename) + ": "@, source_path(main_filename));
    lemma_one_line_joined("build: "@, object_path(main_filename));
}

/// Where neither the main file nor a command holds a newline, the lines of
/// the Makefile text are the lines that the generator laid out: each rule
/// and each command stands on a line of its own, in the order given.
pub proof fn lemma_makefile_text_lines(
    main_filename: Seq<char>,
    compile: Seq<char>,
    link: Option<Seq<char>>,
    commands: Option<CommandsView>,
)
    requires
        one_line(main_filename),
        one_line(compile),
        one_line_if_set(link),
        one_line_if_set(pre_hook(commands)),
        one_line_if_set(post_hook(commands)),
    ensures
        lines_of(makefile_text(main_filename, compile, link, commands)) == makefile_lines(
            main_filename,
            compile,
            link,
            commands,
        ),
{
    let lines = makefile_lines(main_filename, compile, link, commands);
    lemma_rules_one_line(main_filename);
    lemma_recipe_one_line(compile);
    lemma_recipe_one_line(object_command(compile, link));
    if pre_hook(commands) is Some {
        lemma_recipe_one_line(pre_hook(commands)->0);
    }
    if post_hook(commands) is Some {
        lemma_recipe_one_line(post_hook(commands)->0);
    }
    lemma_build_recipe_order(main_filename, compile, link, commands);
    assert forall|i: int| 0 <= i < lines.len() implies one_line(#[trigger] lines[i]) by {
        let at = if pre_hook(commands) is Some { 4int } else { 3int };
        if i == 0 {
        } else if i == 1 {
        } else if i == 2 {
        } else if i == at {
        } else if i < at {
        } else {
            assert(i == at + 1);
        }
    }
    lemma_lines_of_joined(lines);
}

} // verus!
