//! Note creation from templates: metadata, configuration, date formatting,
//! the template registry and the steps that turn a request into a note file.

pub mod commands;
pub mod config;
pub mod date;
pub mod json;
pub mod new_note;
pub mod note_from_template;
pub mod partials;
pub mod paths;
pub mod string_map;
pub mod templating;
pub mod text;
pub mod utils;
