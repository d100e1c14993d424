//! The configuration: where notes and templates live, the default file type,
//! the user's subcommands and the metadata that every note starts from.

use vstd::prelude::*;
use crate::json::{
    fields_model,
    json_model,
    json_object,
    json_text,
    map_model,
    map_value,
    optional_value,
    Json,
};
use crate::paths::{join_path, joined};
use crate::string_map::StringMap;
use vstd::string::StringExecFns;
use crate::utils::{
    json_objects,
    merge,
    merged,
    overlaid,
    pairs_map,
    parse_metadata,
    parse_metadata_json,
};

verus! {

/// The file type of a note where the configuration names none.
pub fn default_file_md() -> (r: String)
    ensures
        r@ == "md"@,
{
    "md".to_owned()
}

/// The configuration of one invocation.
#[derive(Debug)]
pub struct Config {
    /// The extension given to file names that declare none.
    pub note_file_type: String,
    pub editor: Option<String>,
    /// The directory that notes are written to.
    pub notes_dir: String,
    /// The directory that holds the templates.
    pub templates_dir: String,
    /// The user's subcommands: a command template by the subcommand's name.
    pub subcommands: StringMap,
    /// The metadata that every note starts from.
    pub meta: StringMap,
}

/// A configuration by the text and the maps that it holds.
pub struct ConfigView {
    pub note_file_type: Seq<char>,
    pub editor: Option<Seq<char>>,
    pub notes_dir: Seq<char>,
    pub templates_dir: Seq<char>,
    pub subcommands: Map<Seq<char>, Seq<char>>,
    pub meta: Map<Seq<char>, Seq<char>>,
}

impl View for Config {
    type V = ConfigView;

    open spec fn view(&self) -> ConfigView {
        ConfigView {
            note_file_type: self.note_file_type@,
            editor: match self.editor {
                Some(editor) => Some(editor@),
                None => None,
            },
            notes_dir: self.notes_dir@,
            templates_dir: self.templates_dir@,
            subcommands: self.subcommands@,
            meta: self.meta@,
        }
    }
}

impl Clone for Config {
    fn clone(&self) -> (r: Self)
        ensures
            r@ == self@,
    {
        Config {
            note_file_type: self.note_file_type.clone(),
            editor: match &self.editor {
                Some(editor) => Some(editor.clone()),
                None => None,
            },
            notes_dir: self.notes_dir.clone(),
            templates_dir: self.templates_dir.clone(),
            subcommands: self.subcommands.clone(),
            meta: self.meta.clone(),
        }
    }
}

/// Why there is no configuration.
#[derive(Debug)]
pub enum ConfigError {
    /// No configuration directory was named, and `XDG_CONFIG_HOME` is not set.
    NoConfigHome,
    /// The configuration file could not be read.
    Unreadable { path: String, cause: String },
    /// The configuration file does not hold a configuration.
    Malformed { contents: String, cause: String },
}

impl ConfigError {
    /// The error in words.
    pub open spec fn message_text(self) -> Seq<char> {
        match self {
            ConfigError::NoConfigHome => "Could not find env variable XDG_CONFIG_HOME"@,
            ConfigError::Unreadable { path, cause } => "Could not find config file: "@ + path@
                + ": "@ + cause@,
            ConfigError::Malformed { contents, cause } => "Could not construct Config from "@
                + contents@ + ": "@ + cause@,
        }
    }

    /// The error in words, naming the file or the contents at fault.
    pub fn message(&self) -> (r: String)
        ensures
            r@ == self.message_text(),
    {
        match self {
            ConfigError::NoConfigHome => "Could not find env variable XDG_CONFIG_HOME".to_owned(),
            ConfigError::Unreadable { path, cause } => {
                let mut r = "Could not find config file: ".to_owned();
                r.append(path.as_str());
                r.append(": ");
                r.append(cause.as_str());
                r
            },
            ConfigError::Malformed { contents, cause } => {
                let mut r = "Could not construct Config from ".to_owned();
                r.append(contents.as_str());
                r.append(": ");
                r.append(cause.as_str());
                r
            },
        }
    }
}

/// The name of the configuration's directory under `XDG_CONFIG_HOME`.
pub const CONFIG_DIR_NAME: &'static str = "notes-cli";

/// The name of the configuration file in its directory.
pub const CONFIG_FILE_NAME: &'static str = "config.toml";

/// The configuration directory: the one that the flag names, and without a
/// flag the directory `notes-cli` under `XDG_CONFIG_HOME`. Without either
/// there is none.
pub fn get_config_path(flag: Option<&String>, xdg_config_home: Option<&String>) -> (r: Result<
    String,
    ConfigError,
>)
    ensures
        match (flag, xdg_config_home) {
            (Some(path), _) => r matches Ok(dir) && dir@ == path@,
            (None, Some(home)) => r matches Ok(dir) && dir@ == joined(home@, CONFIG_DIR_NAME@),
            (None, None) => r matches Err(ConfigError::NoConfigHome),
        },
{
    match flag {
        Some(path) => Ok(path.clone()),
        None => match xdg_config_home {
            Some(home) => Ok(join_path(home.as_str(), CONFIG_DIR_NAME)),
            None => Err(ConfigError::NoConfigHome),
        },
    }
}

/// The configuration file of the configuration directory `dir`.
pub fn get_config_file(dir: &str) -> (r: String)
    ensures
        r@ == joined(dir@, CONFIG_FILE_NAME@),
{
    join_path(dir, CONFIG_FILE_NAME)
}

/// The metadata of the command line: the `key:value` flags with the JSON
/// flags laid over them.
pub open spec fn command_line_meta(meta_data: Seq<String>, meta_data_json: Seq<String>) -> Map<
    Seq<char>,
    Seq<char>,
> {
    merged(overlaid(json_objects(meta_data_json)), pairs_map(meta_data))
}

/// What templates see of a configuration: an object with one field for each
/// of its fields, an absent editor as null.
pub open spec fn config_model(config: ConfigView) -> Json {
    Json::Object(
        Map::<Seq<char>, Json>::empty().insert(
            "note_file_type"@,
            Json::Text(config.note_file_type),
        ).insert(
            "editor"@,
            match config.editor {
                Some(editor) => Json::Text(editor),
                None => Json::Null,
            },
        ).insert("notes_dir"@, Json::Text(config.notes_dir)).insert(
            "templates_dir"@,
            Json::Text(config.templates_dir),
        ).insert("subcommands"@, map_model(config.subcommands)).insert(
            "meta"@,
            map_model(config.meta),
        ),
    )
}

impl Config {
    /// The configuration that was read from the file, with the metadata of
    /// the command line merged over its own. Where the file gave none, the
    /// reason is passed on.
    pub fn try_new(
        file: Result<Config, ConfigError>,
        meta_data: &Vec<String>,
        meta_data_json: &Vec<String>,
    ) -> (r: Result<Config, ConfigError>)
        ensures
            match file {
                Ok(read) => r matches Ok(config) && config@ == (ConfigView {
                    meta: merged(command_line_meta(meta_data@, meta_data_json@), read@.meta),
                    ..read@
                }),
                Err(error) => r matches Err(passed) && passed == error,
            },
    {
        let flags = parse_metadata(meta_data);
        let objects = parse_metadata_json(meta_data_json);
        let additional = merge(objects, &flags);
        match file {
            Ok(read) => Ok(read.clone_add_meta(additional)),
            Err(error) => Err(error),
        }
    }

    /// This configuration with `meta` merged over its metadata: every key of
    /// both, and for a key of both the value of `meta`.
    pub fn clone_add_meta(&self, meta: StringMap) -> (c: Config)
        ensures
            c@ == (ConfigView { meta: merged(meta@, self@.meta), ..self@ }),
    {
        let mut c = self.clone();
        c.meta = merge(meta, &self.meta);
        c
    }

    /// What templates see of the configuration: an object with one field for
    /// each of its fields.
    pub fn context(&self) -> (value: serde_json::Value)
        ensures
            json_model(value) == config_model(self@),
    {
        let mut fields: Vec<(String, serde_json::Value)> = Vec::new();
        fields.push(("note_file_type".to_owned(), json_text(self.note_file_type.as_str())));
        fields.push(("editor".to_owned(), optional_value(&self.editor)));
        fields.push(("notes_dir".to_owned(), json_text(self.notes_dir.as_str())));
        fields.push(("templates_dir".to_owned(), json_text(self.templates_dir.as_str())));
        fields.push(("subcommands".to_owned(), map_value(&self.subcommands)));
        fields.push(("meta".to_owned(), map_value(&self.meta)));
        proof {
            let f = fields@;
            assert(f.drop_last().drop_last().drop_last().drop_last().drop_last().drop_last().len()
                == 0);
            reveal_with_fuel(fields_model, 8);
        }
        json_object(fields)
    }
}

} // verus!
