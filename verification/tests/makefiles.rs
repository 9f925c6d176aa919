use xylo::config::{
    ConfigBuild, ConfigBuildCommands, ConfigBuildCompiler, ConfigBuildLinker, ConfigStructure,
    Profile, ProfileManager,
};
use xylo::makefile::generate_makefile;
use xylo::text::join;

fn build(commands: Option<ConfigBuildCommands>, linker: Option<ConfigBuildLinker>) -> ConfigBuild {
    ConfigBuild {
        compiler: ConfigBuildCompiler {
            executable: "clang".to_string(),
            args: "-c -o target/main.o".to_string(),
        },
        linker,
        main_filename: "main".to_string(),
        target: None,
        commands,
    }
}

fn hooks(pre: Option<&str>, post: Option<&str>) -> Option<ConfigBuildCommands> {
    Some(ConfigBuildCommands {
        pre_build: pre.map(|s| s.to_string()),
        post_build: post.map(|s| s.to_string()),
    })
}

fn makefile(b: ConfigBuild) -> String {
    ProfileManager::new(Profile {
        name: "debug".to_string(),
        build: b,
        structure: ConfigStructure { directories: vec![], files: vec![] },
    })
    .create_makefile()
}

const COMPILE: &str = "clang main -c -o target/main.o";

#[test]
fn makefile_with_both_hooks_runs_pre_compile_post() {
    let text = makefile(build(hooks(Some("echo pre"), Some("echo post")), None));
    assert_eq!(
        text,
        format!(
            "target/main.o: src/main.c\n\t{COMPILE}\nbuild: target/main.o\n\techo pre\n\t{COMPILE}\n\techo post"
        )
    );
    let lines: Vec<&str> = text.split('\n').collect();
    let at = lines.iter().position(|l| *l == "build: target/main.o").unwrap();
    assert_eq!(&lines[at + 1..], ["\techo pre", &format!("\t{COMPILE}"), "\techo post"]);
}

#[test]
fn makefile_without_hooks_runs_the_compile_command_alone() {
    let expected =
        format!("target/main.o: src/main.c\n\t{COMPILE}\nbuild: target/main.o\n\t{COMPILE}");
    assert_eq!(makefile(build(None, None)), expected);
    assert_eq!(makefile(build(hooks(None, None), None)), expected);
}

#[test]
fn makefile_with_pre_hook_only() {
    assert_eq!(
        makefile(build(hooks(Some("mkdir -p target"), None), None)),
        format!(
            "target/main.o: src/main.c\n\t{COMPILE}\nbuild: target/main.o\n\tmkdir -p target\n\t{COMPILE}"
        )
    );
}

#[test]
fn makefile_with_post_hook_only() {
    assert_eq!(
        makefile(build(hooks(None, Some("strip target/main")), None)),
        format!(
            "target/main.o: src/main.c\n\t{COMPILE}\nbuild: target/main.o\n\t{COMPILE}\n\tstrip target/main"
        )
    );
}

#[test]
fn makefile_with_linker_links_the_object_and_compiles_under_build() {
    let linker =
        ConfigBuildLinker { executable: "ld.lld".to_string(), args: "-o target/main".to_string() };
    assert_eq!(
        makefile(build(hooks(Some("echo pre"), Some("echo post")), Some(linker))),
        format!(
            "target/main.o: src/main.c\n\tld.lld main -o target/main\nbuild: target/main.o\n\techo pre\n\t{COMPILE}\n\techo post"
        )
    );
}

#[test]
fn makefile_hooks_equal_to_the_compile_command_keep_their_places() {
    let text = makefile(build(hooks(Some(COMPILE), Some(COMPILE)), None));
    let lines: Vec<&str> = text.split('\n').collect();
    assert_eq!(lines.len(), 6);
    assert!(lines[3..].iter().all(|l| *l == format!("\t{COMPILE}")));
}

#[test]
fn makefile_carries_the_target_flag_in_both_commands() {
    let mut b = build(None, Some(ConfigBuildLinker {
        executable: "ld".to_string(),
        args: "-lm".to_string(),
    }));
    b.target = Some("x86_64-linux".to_string());
    assert_eq!(
        makefile(b),
        "target/main.o: src/main.c\n\tld main -target x86_64-linux -lm\nbuild: target/main.o\n\tclang main -target x86_64-linux -c -o target/main.o"
    );
}

#[test]
fn generate_makefile_uses_the_commands_it_is_given() {
    let b = build(None, None);
    let text = generate_makefile(
        &b,
        &"cc one".to_string(),
        &Some("ld two".to_string()),
        &hooks(Some("before"), Some("after")),
    );
    assert_eq!(
        text,
        "target/main.o: src/main.c\n\tld two\nbuild: target/main.o\n\tbefore\n\tcc one\n\tafter"
    );
    let text = generate_makefile(&b, &"cc one".to_string(), &None, &None);
    assert_eq!(text, "target/main.o: src/main.c\n\tcc one\nbuild: target/main.o\n\tcc one");
}

#[test]
fn makefile_names_object_and_source_after_the_main_file() {
    let mut b = build(None, None);
    b.main_filename = "app".to_string();
    let text = makefile(b);
    assert!(text.starts_with("target/app.o: src/app.c\n\t"));
    assert!(text.contains("\nbuild: target/app.o\n\t"));
}

#[test]
fn makefile_is_the_same_on_every_generation() {
    let first = makefile(build(hooks(Some("echo pre"), Some("echo post")), None));
    let second = makefile(build(hooks(Some("echo pre"), Some("echo post")), None));
    assert_eq!(first.as_bytes(), second.as_bytes());
}

#[test]
fn join_puts_the_separator_between_parts_only() {
    let parts = vec!["a".to_string(), "b".to_string(), "c".to_string()];
    assert_eq!(join(&parts, "\n"), "a\nb\nc");
    assert_eq!(join(&parts, ", "), "a, b, c");
    assert_eq!(join(&parts[..1].to_vec(), "\n"), "a");
    assert_eq!(join(&Vec::new(), "\n"), "");
    assert_eq!(join(&vec![String::new(), String::new()], "-"), "-");
}
