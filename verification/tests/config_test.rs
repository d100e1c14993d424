use notes_cli::config::{
    default_file_md, get_config_file, get_config_path, Config, ConfigError, CONFIG_DIR_NAME,
    CONFIG_FILE_NAME,
};
use notes_cli::string_map::StringMap;

fn map_of(pairs: &[(&str, &str)]) -> StringMap {
    let mut map = StringMap::new();
    for (key, value) in pairs {
        map.insert(key.to_string(), value.to_string());
    }
    map
}

fn strings(items: &[&str]) -> Vec<String> {
    items.iter().map(|item| item.to_string()).collect()
}

fn test_config() -> Config {
    Config {
        note_file_type: default_file_md(),
        editor: None,
        notes_dir: "/tmp/cli-notes-test-dir".to_string(),
        templates_dir: "./test-config/templates".to_string(),
        subcommands: map_of(&[("test-echo", "echo {{args}}")]),
        meta: map_of(&[("name", "Max Hill")]),
    }
}

fn get_config_from(dir: &str, flags: Vec<&str>) -> Result<Config, ConfigError> {
    let meta_data: Vec<String> = flags
        .chunks(2)
        .filter(|pair| pair[0] == "--meta-data")
        .map(|pair| pair[1].to_string())
        .collect();
    let meta_data_json: Vec<String> = flags
        .chunks(2)
        .filter(|pair| pair[0] == "--meta-data-json")
        .map(|pair| pair[1].to_string())
        .collect();
    let file = if dir == "test-config" {
        Ok(test_config())
    } else {
        Err(ConfigError::Unreadable {
            path: get_config_file(dir),
            cause: "No such file or directory".to_string(),
        })
    };
    Config::try_new(file, &meta_data, &meta_data_json)
}

#[test]
fn it_can_get_config_from_file() {
    match get_config_from("test-config", vec![]) {
        Ok(config) => {
            assert_eq!(config.notes_dir, "/tmp/cli-notes-test-dir");
        }
        Err(e) => {
            panic!("Error when getting config: {}", e.message());
        }
    };
}

#[test]
fn it_fails_if_config_does_not_exist() {
    match get_config_from("does-not-exist", vec![]) {
        Ok(config) => {
            panic!("Did not error when it should have: {:?}", config);
        }
        Err(e) => {
            assert!(e.message().contains("Could not find config file:"));
            assert!(e.message().contains("does-not-exist/config.toml"));
        }
    };
}

#[test]
fn adds_metadata_to_configs_metadata() {
    match get_config_from("test-config", vec!["--meta-data", "some:value"]) {
        Ok(config) => {
            assert_eq!("value", config.meta.get("some").unwrap());
        }
        Err(e) => {
            panic!("Error when getting config: {:?}", e);
        }
    };
}

#[test]
fn adds_metadata_to_configs_metadata_in_json_format() {
    match get_config_from("test-config", vec!["--meta-data-json", "{\"some\": \"value\"}"]) {
        Ok(config) => {
            assert_eq!("value", config.meta.get("some").unwrap());
        }
        Err(e) => {
            panic!("Error when getting config: {:?}", e);
        }
    };
}

#[test]
fn try_new_keeps_the_metadata_of_the_file() {
    let config = get_config_from("test-config", vec!["--meta-data", "some:value"]).unwrap();
    assert_eq!(config.meta.get("name"), Some(&"Max Hill".to_string()));
    assert_eq!(config.meta.len(), 2);
    assert_eq!(config.notes_dir, "/tmp/cli-notes-test-dir");
    assert_eq!(config.note_file_type, "md");
    assert_eq!(config.subcommands.get("test-echo"), Some(&"echo {{args}}".to_string()));
}

#[test]
fn try_new_lets_the_command_line_win_over_the_file() {
    let config = get_config_from("test-config", vec!["--meta-data", "name:Someone Else"]).unwrap();
    assert_eq!(config.meta.get("name"), Some(&"Someone Else".to_string()));
    assert_eq!(config.meta.len(), 1);
}

#[test]
fn try_new_lays_the_json_flags_over_the_key_value_flags() {
    let config = get_config_from(
        "test-config",
        vec!["--meta-data", "k:plain", "--meta-data-json", "{\"k\": \"json\"}", "--meta-data", "o:1"],
    )
    .unwrap();
    assert_eq!(config.meta.get("k"), Some(&"json".to_string()));
    assert_eq!(config.meta.get("o"), Some(&"1".to_string()));
}

#[test]
fn try_new_passes_the_error_on() {
    let file = Err(ConfigError::Malformed {
        contents: "notes_dir = 1".to_string(),
        cause: "invalid type".to_string(),
    });
    match Config::try_new(file, &strings(&["a:b"]), &vec![]) {
        Err(ConfigError::Malformed { contents, cause }) => {
            assert_eq!(contents, "notes_dir = 1");
            assert_eq!(cause, "invalid type");
        }
        other => panic!("expected the error of the file, got {:?}", other),
    }
    assert!(matches!(
        Config::try_new(Err(ConfigError::NoConfigHome), &vec![], &vec![]),
        Err(ConfigError::NoConfigHome)
    ));
}

#[test]
fn clone_add_meta_prefers_the_added_metadata() {
    let mut config = test_config();
    config.meta = map_of(&[("a", "2"), ("b", "3")]);
    let merged = config.clone_add_meta(map_of(&[("a", "1")]));
    assert_eq!(merged.meta.get("a"), Some(&"1".to_string()));
    assert_eq!(merged.meta.get("b"), Some(&"3".to_string()));
    assert_eq!(merged.meta.len(), 2);
    assert_eq!(config.meta.get("a"), Some(&"2".to_string()));
}

#[test]
fn clone_add_meta_changes_nothing_else() {
    let mut config = test_config();
    config.editor = Some("vim".to_string());
    let merged = config.clone_add_meta(map_of(&[("k", "v")]));
    assert_eq!(merged.note_file_type, config.note_file_type);
    assert_eq!(merged.editor, Some("vim".to_string()));
    assert_eq!(merged.notes_dir, config.notes_dir);
    assert_eq!(merged.templates_dir, config.templates_dir);
    assert_eq!(merged.subcommands.len(), 1);
    assert_eq!(merged.subcommands.get("test-echo"), Some(&"echo {{args}}".to_string()));
}

#[test]
fn a_clone_is_the_same_configuration() {
    let mut config = test_config();
    config.editor = Some("vim".to_string());
    let copy = config.clone();
    assert_eq!(copy.note_file_type, "md");
    assert_eq!(copy.editor, Some("vim".to_string()));
    assert_eq!(copy.notes_dir, "/tmp/cli-notes-test-dir");
    assert_eq!(copy.templates_dir, "./test-config/templates");
    assert_eq!(copy.meta.get("name"), Some(&"Max Hill".to_string()));
    assert_eq!(copy.subcommands.get("test-echo"), Some(&"echo {{args}}".to_string()));
}

#[test]
fn the_default_file_type_is_md() {
    assert_eq!(default_file_md(), "md");
}

#[test]
fn the_flag_names_the_config_directory() {
    let flag = "./test-config".to_string();
    let home = "/home/me/.config".to_string();
    assert_eq!(get_config_path(Some(&flag), Some(&home)).unwrap(), "./test-config");
    assert_eq!(get_config_path(Some(&flag), None).unwrap(), "./test-config");
}

#[test]
fn without_a_flag_the_config_directory_is_under_the_config_home() {
    let home = "/home/me/.config".to_string();
    assert_eq!(get_config_path(None, Some(&home)).unwrap(), "/home/me/.config/notes-cli");
    let home = "/home/me/.config/".to_string();
    assert_eq!(get_config_path(None, Some(&home)).unwrap(), "/home/me/.config/notes-cli");
    assert_eq!(CONFIG_DIR_NAME, "notes-cli");
}

#[test]
fn without_a_flag_and_a_config_home_there_is_no_config_directory() {
    assert!(matches!(get_config_path(None, None), Err(ConfigError::NoConfigHome)));
}

#[test]
fn the_config_file_is_config_toml() {
    assert_eq!(get_config_file("./test-config"), "./test-config/config.toml");
    assert_eq!(get_config_file("/home/me/.config/notes-cli/"), "/home/me/.config/notes-cli/config.toml");
    assert_eq!(CONFIG_FILE_NAME, "config.toml");
}

#[test]
fn the_context_of_a_configuration_holds_each_field() {
    let mut config = test_config();
    let context = config.context();
    assert_eq!(context["note_file_type"], "md");
    assert!(context["editor"].is_null());
    assert_eq!(context["notes_dir"], "/tmp/cli-notes-test-dir");
    assert_eq!(context["templates_dir"], "./test-config/templates");
    assert_eq!(context["subcommands"]["test-echo"], "echo {{args}}");
    assert_eq!(context["meta"]["name"], "Max Hill");
    assert_eq!(context.as_object().unwrap().len(), 6);
    assert_eq!(context["meta"].as_object().unwrap().len(), 1);

    config.editor = Some("vim".to_string());
    config.meta = StringMap::new();
    let context = config.context();
    assert_eq!(context["editor"], "vim");
    assert!(context["meta"].as_object().unwrap().is_empty());
}

#[test]
fn config_errors_say_what_failed() {
    assert_eq!(
        ConfigError::NoConfigHome.message(),
        "Could not find env variable XDG_CONFIG_HOME"
    );
    let unreadable = ConfigError::Unreadable {
        path: "dir/config.toml".to_string(),
        cause: "No such file or directory".to_string(),
    };
    assert_eq!(
        unreadable.message(),
        "Could not find config file: dir/config.toml: No such file or directory"
    );
    let malformed =
        ConfigError::Malformed { contents: "x = ".to_string(), cause: "expected a value".to_string() };
    assert_eq!(malformed.message(), "Could not construct Config from x = : expected a value");
}
