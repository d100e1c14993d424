use notes_cli::commands::ls::ListNotes;
use notes_cli::config::Config;
use notes_cli::string_map::StringMap;

#[test]
fn can_list_notes() {
    let config = Config {
        note_file_type: "md".to_string(),
        editor: None,
        notes_dir: "./test-config-ls/notes".to_string(),
        templates_dir: "./test-config-ls/templates".to_string(),
        subcommands: StringMap::new(),
        meta: StringMap::new(),
    };
    let invocation = ListNotes::new(&config).run();
    assert_eq!(invocation.program, "ls");
    assert_eq!(invocation.args, vec!["-1".to_string(), "./test-config-ls/notes".to_string()]);
}
