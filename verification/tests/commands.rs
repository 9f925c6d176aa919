use xylo::command::{invoke, synthesize, target_args};
use xylo::config::{
    ConfigBuild, ConfigBuildCompiler, ConfigBuildLinker, ConfigStructure, Profile, ProfileManager,
};

fn build(target: Option<&str>, linker: Option<(&str, &str)>) -> ConfigBuild {
    ConfigBuild {
        compiler: ConfigBuildCompiler { executable: "clang".to_string(), args: "-O2".to_string() },
        linker: linker.map(|(executable, args)| ConfigBuildLinker {
            executable: executable.to_string(),
            args: args.to_string(),
        }),
        main_filename: "src/main.c".to_string(),
        target: target.map(|t| t.to_string()),
        commands: None,
    }
}

fn manager(build: ConfigBuild) -> ProfileManager {
    ProfileManager::new(Profile {
        name: "debug".to_string(),
        build,
        structure: ConfigStructure { directories: vec![], files: vec![] },
    })
}

#[test]
fn compile_command_with_target_puts_flag_behind_tokens() {
    let command = manager(build(Some("x86_64-linux"), None)).get_compile_command();
    assert_eq!(command, "clang src/main.c -target x86_64-linux -O2");
    assert!(command.starts_with("clang src/main.c "));
    assert_eq!(&command["clang src/main.c ".len()..], "-target x86_64-linux -O2");
}

#[test]
fn compile_command_without_target_has_no_flag() {
    let command = manager(build(None, None)).get_compile_command();
    assert_eq!(command, "clang src/main.c -O2");
    assert!(!command.contains("-target"));
}

#[test]
fn compile_command_of_the_first_run_template() {
    let mut b = build(None, None);
    b.compiler.args = "-Iinclude -o target/main".to_string();
    b.main_filename = "main".to_string();
    assert_eq!(manager(b).get_compile_command(), "clang main -Iinclude -o target/main");
}

#[test]
fn compile_command_keeps_arguments_verbatim() {
    let mut b = build(None, None);
    b.compiler.args = "  -DNAME=\"a b\"   $(X) ".to_string();
    assert_eq!(manager(b).get_compile_command(), "clang src/main.c   -DNAME=\"a b\"   $(X) ");
}

#[test]
fn compile_command_with_empty_parts_keeps_both_spaces() {
    let b = ConfigBuild {
        compiler: ConfigBuildCompiler { executable: String::new(), args: String::new() },
        linker: None,
        main_filename: String::new(),
        target: None,
        commands: None,
    };
    assert_eq!(manager(b).get_compile_command(), "  ");
}

#[test]
fn link_command_is_absent_without_linker() {
    assert_eq!(manager(build(Some("x86_64-linux"), None)).get_link_command(), None);
}

#[test]
fn link_command_uses_the_linker_executable_and_arguments() {
    let m = manager(build(None, Some(("ld.lld", "-lm"))));
    assert_eq!(m.get_link_command(), Some("ld.lld src/main.c -lm".to_string()));
    assert_eq!(m.get_compile_command(), "clang src/main.c -O2");
}

#[test]
fn target_is_applied_to_compiler_and_linker_alike() {
    let m = manager(build(Some("aarch64-none-elf"), Some(("ld.lld", "-lm"))));
    assert_eq!(m.get_compile_command(), "clang src/main.c -target aarch64-none-elf -O2");
    assert_eq!(
        m.get_link_command(),
        Some("ld.lld src/main.c -target aarch64-none-elf -lm".to_string())
    );
}

#[test]
fn synthesize_gives_both_commands() {
    let b = build(Some("x86_64-linux"), Some(("ld", "")));
    let (compile, link) = synthesize(&b);
    assert_eq!(compile, "clang src/main.c -target x86_64-linux -O2");
    assert_eq!(link, Some("ld src/main.c -target x86_64-linux ".to_string()));
}

#[test]
fn target_args_prepends_flag_only_with_target() {
    let args = "-O2".to_string();
    assert_eq!(target_args(&Some("x86_64-linux".to_string()), &args), "-target x86_64-linux -O2");
    assert_eq!(target_args(&None, &args), "-O2");
    assert_eq!(target_args(&Some(String::new()), &String::new()), "-target  ");
}

#[test]
fn invoke_joins_with_single_spaces() {
    let r = invoke(&"cc".to_string(), &"-c".to_string(), &"a.c".to_string(), &None);
    assert_eq!(r, "cc a.c -c");
}

#[test]
fn commands_are_the_same_on_every_call() {
    let m = manager(build(Some("x86_64-linux"), Some(("ld", "-lm"))));
    assert_eq!(m.get_compile_command(), m.get_compile_command());
    assert_eq!(m.get_link_command(), m.get_link_command());
}
