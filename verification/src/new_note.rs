//! The `new` command: a note requested on the command line, with its name,
//! its templates and its `key:value` metadata as the flags gave them.

use vstd::prelude::*;
use crate::config::Config;
use crate::note_from_template::{
    is_render_error,
    next_step,
    note_model,
    now_utc_text,
    requested,
    NoteError,
    NoteFromTemplate,
    NoteView,
    Progress,
    Step,
    NAME_TEMPLATE_LABEL,
};
use crate::paths::with_extension;
use crate::string_map::StringMap;
use crate::templating::{text_rendering, Rendering, TemplateFile, Templates};
use crate::utils::{pairs_map, parse_metadata};

verus! {

/// The request of the `new` command.
#[derive(Debug)]
pub struct NewNote {
    pub config: Config,
    pub template: String,
    pub name: String,
    pub name_template: String,
    pub now: String,
    pub meta: StringMap,
}

impl View for NewNote {
    type V = NoteView;

    open spec fn view(&self) -> NoteView {
        NoteView {
            config: self.config@,
            template: self.template@,
            name: self.name@,
            name_template: self.name_template@,
            now: self.now@,
            meta: self.meta@,
        }
    }
}

/// The command line names no note.
#[derive(Debug)]
pub struct NoNameSpecified;

impl NoNameSpecified {
    /// The error in words.
    pub fn message(&self) -> (r: String)
        ensures
            r@ == "No name specified"@,
    {
        "No name specified".to_owned()
    }
}

impl NewNote {
    /// The request that the flags make at the time `now`. The metadata
    /// flags are read as `key:value` and merged over the configuration's
    /// metadata. Without a name there is no request.
    pub fn at(
        config: &Config,
        name: Option<&String>,
        template: Option<&String>,
        name_template: Option<&String>,
        meta_data: &Vec<String>,
        now: String,
    ) -> (r: Result<NewNote, NoNameSpecified>)
        ensures
            match name {
                Some(name) => r matches Ok(note) && note@ == requested(
                    config@,
                    template,
                    name@,
                    name_template,
                    now@,
                    pairs_map(meta_data@),
                ),
                None => r is Err,
            },
    {
        let meta = parse_metadata(meta_data);
        match name {
            Some(name) => {
                let note = NoteFromTemplate::at(
                    config,
                    template,
                    name.clone(),
                    name_template,
                    now,
                    meta,
                );
                Ok(
                    NewNote {
                        config: note.config,
                        template: note.template,
                        name: note.name,
                        name_template: note.name_template,
                        now: note.now,
                        meta: note.meta,
                    },
                )
            },
            None => Err(NoNameSpecified),
        }
    }

    /// The request that the flags make now. The time is read once, here.
    pub fn try_new(
        config: &Config,
        name: Option<&String>,
        template: Option<&String>,
        name_template: Option<&String>,
        meta_data: &Vec<String>,
    ) -> (r: Result<NewNote, NoNameSpecified>)
        ensures
            match name {
                Some(name) => r matches Ok(note) && note@ == requested(
                    config@,
                    template,
                    name@,
                    name_template,
                    note@.now,
                    pairs_map(meta_data@),
                ),
                None => r is Err,
            },
    {
        let now = now_utc_text();
        NewNote::at(config, name, template, name_template, meta_data, now)
    }

    /// The same request as a note from a template.
    pub fn request(&self) -> (note: NoteFromTemplate)
        ensures
            note@ == self@,
    {
        NoteFromTemplate {
            config: self.config.clone(),
            template: self.template.clone(),
            name: self.name.clone(),
            name_template: self.name_template.clone(),
            now: self.now.clone(),
            meta: self.meta.clone(),
        }
    }

    /// The name of the note's file: what the name template renders to, with
    /// the configured file type as its default extension.
    pub fn get_file_name(&self, templates: &Templates) -> (r: Result<String, NoteError>)
        ensures
            match text_rendering(templates@, self@.name_template, note_model(self@)) {
                Rendering::Output(rendered) => r matches Ok(name) && name@ == with_extension(
                    rendered,
                    self@.config.note_file_type,
                ),
                other => r matches Err(error) && is_render_error(
                    error,
                    NAME_TEMPLATE_LABEL@,
                    other,
                ),
            },
    {
        self.request().get_file_name(templates)
    }

    /// One step of writing the note: see `NoteFromTemplate::write`.
    pub fn write(&self, files: &Vec<TemplateFile>, progress: Progress) -> (step: Step)
        ensures
            next_step(self@, files@, progress, step),
    {
        self.request().write(files, progress)
    }
}

} // verus!
