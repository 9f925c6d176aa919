//! Compiler and linker invocations, derived from a build configuration.
//!
//! Argument strings are opaque: they are joined with single spaces and
//! neither split nor escaped.

use vstd::prelude::*;
use crate::config::{BuildView, ConfigBuild, ToolView};
use crate::text::{lemma_occurs_in_one_side, occurs_at, occurs_in};

verus! {

/// The argument string of a tool, with the target flag in front of it where
/// a target is configured.
pub open spec fn targeted_args(target: Option<Seq<char>>, args: Seq<char>) -> Seq<char> {
    match target {
        Some(t) => "-target "@ + t + " "@ + args,
        None => args,
    }
}

/// The invocation of a tool on the main file.
pub open spec fn invocation(tool: ToolView, main_filename: Seq<char>, target: Option<Seq<char>>) -> Seq<char> {
    tool.executable + " "@ + main_filename + " "@ + targeted_args(target, tool.args)
}

/// The compile command of a build: the compiler's own executable, the main
/// file, the compiler's arguments.
pub open spec fn compile_command(build: BuildView) -> Seq<char> {
    invocation(build.compiler, build.main_filename, build.target)
}

/// The link command of a build, where a linker is configured: the linker's
/// own executable, the main file, the linker's arguments.
pub open spec fn link_command(build: BuildView) -> Option<Seq<char>> {
    match build.linker {
        Some(linker) => Some(invocation(linker, build.main_filename, build.target)),
        None => None,
    }
}

/// Puts the target flag in front of an argument string.
pub fn target_args(target: &Option<String>, args: &String) -> (r: String)
    ensures
        r@ == targeted_args(crate::config::text_of(*target), args@),
{
    match target {
        Some(t) => {
            let mut r = "-target ".to_owned();
            r.append(t.as_str());
            r.append(" ");
            r.append(args.as_str());
            r
        },
        None => args.clone(),
    }
}

/// Joins executable, main file and arguments with single spaces.
pub fn invoke(executable: &String, args: &String, main_filename: &String, target: &Option<String>) -> (r: String)
    ensures
        r@ == invocation(
            ToolView { executable: executable@, args: args@ },
            main_filename@,
            crate::config::text_of(*target),
        ),
{
    let tool_args = target_args(target, args);
    let mut r = executable.clone();
    r.append(" ");
    r.append(main_filename.as_str());
    r.append(" ");
    r.append(tool_args.as_str());
    r
}

/// The compile command and, where a linker is configured, the link command.
pub fn synthesize(build: &ConfigBuild) -> (r: (String, Option<String>))
    ensures
        r.0@ == compile_command(build@),
        crate::config::text_of(r.1) == link_command(build@),
{
    let compile = invoke(
        &build.compiler.executable,
        &build.compiler.args,
        &build.main_filename,
        &build.target,
    );
    let link = match &build.linker {
        Some(linker) => Some(invoke(&linker.executable, &linker.args, &build.main_filename, &build.target)),
        None => None,
    };
    (compile, link)
}

/// With a target, the compile command is the executable, a space, the main
/// file and a space, and right behind them the target flag, the target, a
/// space and the compiler's arguments.
pub proof fn lemma_target_flag_follows_tokens(build: BuildView)
    requires
        build.target is Some,
    ensures
        compile_command(build) == (build.compiler.executable + " "@ + build.main_filename + " "@)
            + ("-target "@ + build.target->0 + " "@ + build.compiler.args),
        occurs_at(
            compile_command(build),
            "-target "@ + build.target->0 + " "@ + build.compiler.args,
            (build.compiler.executable + " "@ + build.main_filename + " "@).len() as int,
        ),
{
    let tokens = build.compiler.executable + " "@ + build.main_filename + " "@;
    let flagged = "-target "@ + build.target->0 + " "@ + build.compiler.args;
    assert(compile_command(build) =~= tokens + flagged);
    assert((tokens + flagged).subrange(tokens.len() as int, (tokens.len() + flagged.len()) as int)
        =~= flagged);
}

/// Without a target, the compile command holds no target flag, unless the
/// executable, the main file or the arguments hold one themselves.
pub proof fn lemma_no_target_flag_without_target(build: BuildView)
    requires
        build.target is None,
        !occurs_in(build.compiler.executable, "-target"@),
        !occurs_in(build.main_filename, "-target"@),
        !occurs_in(build.compiler.args, "-target"@),
    ensures
        !occurs_in(compile_command(build), "-target"@),
{
    reveal_strlit("-target");
    reveal_strlit(" ");
    let flag = "-target"@;
    let tokens = build.compiler.executable + seq![' '] + build.main_filename;
    assert(" "@ =~= seq![' ']);
    assert(compile_command(build) =~= tokens + seq![' '] + build.compiler.args);
    assert(!flag.contains(' ')) by {
        assert forall|i: int| 0 <= i < flag.len() implies flag[i] != ' ' by {}
    }
    if occurs_in(compile_command(build), flag) {
        lemma_occurs_in_one_side(tokens, build.compiler.args, ' ', flag);
        lemma_occurs_in_one_side(build.compiler.executable, build.main_filename, ' ', flag);
    }
}

} // verus!
