use xylo::config::{
    Config, ConfigBuild, ConfigBuildCommands, ConfigBuildCompiler, ConfigBuildLinker,
    ConfigManager, ConfigStructure, Profile,
};
use xylo::error::ErrorKind;

fn template() -> Config {
    Config {
        default_profile: "template".to_string(),
        profile: vec![Profile {
            name: "template".to_string(),
            build: ConfigBuild {
                compiler: ConfigBuildCompiler {
                    executable: "clang".to_string(),
                    args: "-Iinclude -o target/main".to_string(),
                },
                linker: None,
                main_filename: "main".to_string(),
                target: None,
                commands: None,
            },
            structure: ConfigStructure {
                files: vec!["src/main.c".to_string()],
                directories: vec![
                    "src/".to_string(),
                    "target/".to_string(),
                    "include/".to_string(),
                ],
            },
        }],
    }
}

fn full() -> Config {
    let mut config = template();
    let mut release = Profile {
        name: "release \"fast\"".to_string(),
        build: ConfigBuild {
            compiler: ConfigBuildCompiler {
                executable: "C:\\llvm\\clang.exe".to_string(),
                args: "-O2 -DNAME='x'\t#not a comment".to_string(),
            },
            linker: Some(ConfigBuildLinker {
                executable: "ld.lld".to_string(),
                args: String::new(),
            }),
            main_filename: "app".to_string(),
            target: Some("x86_64-linux".to_string()),
            commands: Some(ConfigBuildCommands {
                pre_build: Some("echo pre\necho more".to_string()),
                post_build: None,
            }),
        },
        structure: ConfigStructure { directories: vec![], files: vec![] },
    };
    config.profile.push(release.clone());
    release.name = "é".to_string();
    release.build.commands =
        Some(ConfigBuildCommands { pre_build: None, post_build: Some("strip".to_string()) });
    config.profile.push(release.clone());
    release.name = "bare".to_string();
    release.build.commands = Some(ConfigBuildCommands { pre_build: None, post_build: None });
    config.profile.push(release);
    config
}

const TEMPLATE: &str = r#"
default_profile = "template"

[[profile]]
name = "template"

[profile.build]
main_filename = "main"

[profile.build.compiler]
exec = "clang"
args = "-Iinclude -o target/main"

[profile.structure]
directories = ["src/", "target/", "include/"]
files = ["src/main.c"]
"#;

fn refused(source: &str) {
    match ConfigManager::parse(source) {
        Ok(_) => panic!("accepted: {source}"),
        Err(e) => assert_eq!(*e.kind(), ErrorKind::InvalidConfig),
    }
}

#[test]
fn parse_reads_the_template() {
    assert_eq!(ConfigManager::parse(TEMPLATE).unwrap().config, template());
}

#[test]
fn written_template_reads_back_equal() {
    let text = ConfigManager::new(template()).to_string().unwrap();
    assert_eq!(ConfigManager::parse(&text).unwrap().config, template());
}

#[test]
fn written_configuration_reads_back_equal_field_for_field() {
    let text = ConfigManager::new(full()).to_string().unwrap();
    let back = ConfigManager::parse(&text).unwrap().config;
    assert_eq!(back.default_profile, full().default_profile);
    assert_eq!(back.profile.len(), 4);
    assert_eq!(back, full());
}

#[test]
fn written_empty_configuration_reads_back_equal() {
    let config = Config { default_profile: String::new(), profile: vec![] };
    let text = ConfigManager::new(config).to_string().unwrap();
    assert_eq!(
        ConfigManager::parse(&text).unwrap().config,
        Config { default_profile: String::new(), profile: vec![] }
    );
}

#[test]
fn written_text_is_what_toml_reads_as_the_document() {
    let text = ConfigManager::new(full()).to_string().unwrap();
    let table: toml::Table = toml::from_str(&text).unwrap();
    assert_eq!(table, full().to_document());
    assert_eq!(table["default_profile"].as_str(), Some("template"));
    let first = table["profile"].as_array().unwrap()[0].as_table().unwrap();
    assert_eq!(first["build"]["compiler"]["exec"].as_str(), Some("clang"));
    assert_eq!(first["build"].as_table().unwrap().get("target"), None);
}

#[test]
fn written_text_does_not_change_between_calls() {
    let m = ConfigManager::new(full());
    assert_eq!(m.to_string().unwrap(), m.to_string().unwrap());
}

#[test]
fn document_has_a_key_for_each_part_that_is_set() {
    let table = full().to_document();
    let profiles = table["profile"].as_array().unwrap();
    let plain = profiles[0]["build"].as_table().unwrap();
    let mut keys: Vec<&str> = plain.keys().map(|k| k.as_str()).collect();
    keys.sort();
    assert_eq!(keys, ["compiler", "main_filename"]);
    let rich = profiles[1]["build"].as_table().unwrap();
    let mut keys: Vec<&str> = rich.keys().map(|k| k.as_str()).collect();
    keys.sort();
    assert_eq!(keys, ["commands", "compiler", "linker", "main_filename", "target"]);
    assert_eq!(rich["commands"].as_table().unwrap().len(), 1);
    assert_eq!(rich["commands"]["pre_build"].as_str(), Some("echo pre\necho more"));
    assert_eq!(rich["linker"]["args"].as_str(), Some(""));
    assert_eq!(profiles[3]["build"]["commands"].as_table().unwrap().len(), 0);
    assert_eq!(profiles[0]["structure"]["directories"].as_array().unwrap().len(), 3);
    assert_eq!(profiles[0]["structure"]["files"][0].as_str(), Some("src/main.c"));
}

#[test]
fn document_reads_back_equal() {
    assert_eq!(Config::from_document(&full().to_document()), Ok(full()));
    assert_eq!(Config::from_document(&template().to_document()), Ok(template()));
}

#[test]
fn parse_reads_optional_parts() {
    let source = r#"
default_profile = "cross"

[[profile]]
name = "cross"
build = { compiler = { exec = "clang", args = "-c" }, linker = { exec = "ld", args = "-lm" }, main_filename = "main", target = "aarch64-none-elf", commands = { pre_build = "echo pre", post_build = "echo post" } }
structure = { directories = [], files = [] }
"#;
    let config = ConfigManager::parse(source).unwrap().config;
    let build = &config.profile[0].build;
    assert_eq!(
        build.linker,
        Some(ConfigBuildLinker { executable: "ld".to_string(), args: "-lm".to_string() })
    );
    assert_eq!(build.target, Some("aarch64-none-elf".to_string()));
    assert_eq!(
        build.commands,
        Some(ConfigBuildCommands {
            pre_build: Some("echo pre".to_string()),
            post_build: Some("echo post".to_string()),
        })
    );
}

#[test]
fn parse_passes_over_keys_it_does_not_know() {
    let source = TEMPLATE.replace("name = \"template\"", "name = \"template\"\ncolour = 3");
    let source = format!("version = 2\n{source}\n[extra]\nkey = true\n");
    assert_eq!(ConfigManager::parse(&source).unwrap().config, template());
}

#[test]
fn parse_does_not_ask_that_the_default_profile_exists() {
    let source = TEMPLATE.replace("default_profile = \"template\"", "default_profile = \"gone\"");
    let m = ConfigManager::parse(&source).unwrap();
    assert_eq!(m.config.default_profile, "gone");
    let err = m.resolve(None).unwrap_err();
    assert_eq!(*err.kind(), ErrorKind::ProfileNotFound { name: "gone".to_string() });
}

#[test]
fn parse_refuses_text_that_is_no_toml() {
    refused("default_profile = ");
    refused("= =");
    refused("[[profile]\nname = \"x\"");
    refused("default_profile = \"a\"\ndefault_profile = \"b\"\nprofile = []");
}

#[test]
fn parse_refuses_a_missing_required_key() {
    refused("");
    refused("default_profile = \"template\"");
    refused("profile = []");
    refused(&TEMPLATE.replace("name = \"template\"", ""));
    refused(&TEMPLATE.replace("main_filename = \"main\"", ""));
    refused(&TEMPLATE.replace("exec = \"clang\"", ""));
    refused(&TEMPLATE.replace("args = \"-Iinclude -o target/main\"", ""));
    refused(&TEMPLATE.replace("files = [\"src/main.c\"]", ""));
    refused(&TEMPLATE.replace("directories = [\"src/\", \"target/\", \"include/\"]", ""));
    refused(&TEMPLATE.replace("[profile.build.compiler]", "[profile.build.other]"));
    refused(&TEMPLATE.replace("[profile.structure]", "[profile.layout]"));
}

#[test]
fn parse_refuses_a_value_of_the_wrong_kind() {
    refused("default_profile = 1\nprofile = []");
    refused("default_profile = \"a\"\nprofile = \"b\"");
    refused("default_profile = \"a\"\nprofile = [\"b\"]");
    refused("default_profile = \"a\"\n[profile]\nname = \"b\"");
    refused(&TEMPLATE.replace("name = \"template\"", "name = 7"));
    refused(&TEMPLATE.replace("main_filename = \"main\"", "main_filename = [\"main\"]"));
    refused(&TEMPLATE.replace("main_filename = \"main\"", "main_filename = \"main\"\ntarget = 64"));
    refused(&TEMPLATE.replace("main_filename = \"main\"", "main_filename = \"main\"\nlinker = \"ld\""));
    refused(&TEMPLATE.replace(
        "main_filename = \"main\"",
        "main_filename = \"main\"\ncommands = { pre_build = false }",
    ));
    refused(&TEMPLATE.replace(
        "main_filename = \"main\"",
        "main_filename = \"main\"\nlinker = { exec = \"ld\" }",
    ));
    refused(&TEMPLATE.replace("files = [\"src/main.c\"]", "files = [\"src/main.c\", 1]"));
    refused(&TEMPLATE.replace("files = [\"src/main.c\"]", "files = \"src/main.c\""));
    refused(&TEMPLATE.replace("exec = \"clang\"", "exec = 1979-05-27"));
    refused(&TEMPLATE.replace("exec = \"clang\"", "exec = 1.5"));
}

#[test]
fn parse_refuses_when_one_profile_of_many_is_malformed() {
    let good = TEMPLATE.to_string();
    let second = "\n[[profile]]\nname = \"second\"\n";
    refused(&format!("{good}{second}"));
}

#[test]
fn from_document_refuses_a_table_of_another_shape() {
    let mut table = template().to_document();
    table.insert("profile".to_string(), toml::Value::Integer(3));
    assert_eq!(Config::from_document(&table).unwrap_err().kind(), &ErrorKind::InvalidConfig);
    let mut table = template().to_document();
    table.remove("default_profile");
    assert_eq!(Config::from_document(&table).unwrap_err().kind(), &ErrorKind::InvalidConfig);
    assert_eq!(
        Config::from_document(&toml::Table::new()).unwrap_err().kind(),
        &ErrorKind::InvalidConfig
    );
}

#[test]
fn from_document_reads_what_replaced_a_value() {
    let mut table = template().to_document();
    table.insert("default_profile".to_string(), toml::Value::String("other".to_string()));
    let config = Config::from_document(&table).unwrap();
    assert_eq!(config.default_profile, "other");
    assert_eq!(config.profile, template().profile);
}

#[test]
fn template_is_the_configuration_of_a_first_run() {
    assert_eq!(xylo::scaffold::template_config(), template());
    let m = ConfigManager::new(xylo::scaffold::template_config());
    assert_eq!(m.resolve(None), Ok(template().profile.remove(0)));
}
