//! A note made from a template: the request, what templates see of it, the
//! name of its file, and the steps that write it.

use vstd::prelude::*;
use vstd::string::StringExecFns;
use crate::config::{config_model, Config, ConfigView};
use crate::json::{fields_model, json_model, json_object, json_text, map_model, map_value, Json};
use crate::paths::{
    apply_extension,
    join_path,
    joined,
    plain_name_gets_extension,
    with_extension,
};
use crate::string_map::StringMap;
use crate::templating::{
    built_registry,
    get_templates,
    named_rendering,
    registration_fault,
    text_rendering,
    Rendering,
    TemplateFile,
    Templates,
    EMPTY_TEMPLATE_NAME,
};
use crate::utils::{merge, merged};

verus! {

/// The name template of a note that names none: the note's name as it is.
pub const DEFAULT_NAME_TEMPLATE: &'static str = "{{name}}";

/// The name by which errors call the name template.
pub const NAME_TEMPLATE_LABEL: &'static str = "name-template";

/// The request for one note.
#[derive(Debug)]
pub struct NoteFromTemplate {
    pub config: Config,
    /// The name of the template of the note's body.
    pub template: String,
    /// The note's name as the caller gave it.
    pub name: String,
    /// The template of the note's file name.
    pub name_template: String,
    /// The time of the request, as text.
    pub now: String,
    /// The note's metadata: the caller's over the configuration's.
    pub meta: StringMap,
}

/// A request by the text and the maps that it holds.
pub struct NoteView {
    pub config: ConfigView,
    pub template: Seq<char>,
    pub name: Seq<char>,
    pub name_template: Seq<char>,
    pub now: Seq<char>,
    pub meta: Map<Seq<char>, Seq<char>>,
}

impl View for NoteFromTemplate {
    type V = NoteView;

    open spec fn view(&self) -> NoteView {
        NoteView {
            config: self.config@,
            template: self.template@,
            name: self.name@,
            name_template: self.name_template@,
            now: self.now@,
            meta: self.meta@,
        }
    }
}

/// Why a note was not written.
#[derive(Debug)]
pub enum NoteError {
    /// The registry could not be built: the engine does not compile
    /// `template`.
    Configuration { template: String, cause: String },
    /// A template did not render. `template` is `name-template` for the
    /// template of the file name, and else the name of the body's template.
    Render { template: String, cause: String },
    /// The note's file could not be created.
    FileCreation { path: String, cause: String },
}

impl NoteError {
    /// What the error says went wrong, before it names the thing and the
    /// cause.
    pub open spec fn heading(self) -> Seq<char> {
        match self {
            NoteError::Configuration { .. } => "Could not register template "@,
            NoteError::Render { .. } => "Could not render template "@,
            NoteError::FileCreation { .. } => "Could not create file or directory "@,
        }
    }

    /// The template or the path at fault.
    pub open spec fn subject(self) -> Seq<char> {
        match self {
            NoteError::Configuration { template, .. } => template@,
            NoteError::Render { template, .. } => template@,
            NoteError::FileCreation { path, .. } => path@,
        }
    }

    /// What the engine or the system said.
    pub open spec fn cause_text(self) -> Seq<char> {
        match self {
            NoteError::Configuration { cause, .. } => cause@,
            NoteError::Render { cause, .. } => cause@,
            NoteError::FileCreation { cause, .. } => cause@,
        }
    }

    /// The error in words: what went wrong, with which template or path, and
    /// the cause.
    pub fn message(&self) -> (r: String)
        ensures
            r@ == self.heading() + self.subject() + ": "@ + self.cause_text(),
    {
        let (heading, subject, cause) = match self {
            NoteError::Configuration { template, cause } => (
                "Could not register template ",
                template,
                cause,
            ),
            NoteError::Render { template, cause } => ("Could not render template ", template, cause),
            NoteError::FileCreation { path, cause } => (
                "Could not create file or directory ",
                path,
                cause,
            ),
        };
        let mut r = heading.to_owned();
        r.append(subject.as_str());
        r.append(": ");
        r.append(cause.as_str());
        r
    }
}

/// What has happened to the note's file so far.
#[derive(Debug)]
pub enum Progress {
    /// Nothing yet.
    Started,
    /// The file at `path` was created, or emptied if it was there.
    Created { path: String },
    /// The file at `path` could not be created.
    NotCreated { path: String, cause: String },
    /// The body was written to the file at `path`.
    Filled { path: String },
    /// The body could not be written to the file at `path`.
    NotFilled { path: String, cause: String },
}

/// What is to happen next.
#[derive(Debug)]
pub enum Step {
    /// Create the file at `path`, or empty it if it is there. Create no
    /// directory for it.
    Create { path: String },
    /// Write `body` to the file at `path`.
    Fill { path: String, body: String },
    /// The note is written: `path` is its file.
    Finished { path: String },
    /// The note is not written. Nothing more is to be done: what is on disk
    /// stays as it is.
    Failed(NoteError),
}

/// What templates see of a request: an object with one field for each of
/// its fields, the configuration among them.
pub open spec fn note_model(note: NoteView) -> Json {
    Json::Object(
        Map::<Seq<char>, Json>::empty().insert("config"@, config_model(note.config)).insert(
            "template"@,
            Json::Text(note.template),
        ).insert("name"@, Json::Text(note.name)).insert(
            "name_template"@,
            Json::Text(note.name_template),
        ).insert("now"@, Json::Text(note.now)).insert("meta"@, map_model(note.meta)),
    )
}

/// The request that the arguments make at the time `now`: the empty
/// template and the name template `{{name}}` where none is given, and the
/// caller's metadata merged over the configuration's.
pub open spec fn requested(
    config: ConfigView,
    template: Option<&String>,
    name: Seq<char>,
    name_template: Option<&String>,
    now: Seq<char>,
    meta: Map<Seq<char>, Seq<char>>,
) -> NoteView {
    NoteView {
        config,
        template: match template {
            Some(template) => template@,
            None => EMPTY_TEMPLATE_NAME@,
        },
        name,
        name_template: match name_template {
            Some(name_template) => name_template@,
            None => DEFAULT_NAME_TEMPLATE@,
        },
        now,
        meta: merged(meta, config.meta),
    }
}

/// The registry could not be built: the engine does not compile the
/// template `name`. What the engine says of it is its own.
pub open spec fn is_configuration_error(error: NoteError, name: Seq<char>) -> bool {
    error matches NoteError::Configuration { template, .. } && template@ == name
}

/// The template `name` did not render, as `rendering` says: where the engine
/// was not asked, the cause is the reason for that; where the engine failed,
/// the cause is what it said.
pub open spec fn is_render_error(error: NoteError, name: Seq<char>, rendering: Rendering) -> bool {
    &&& error matches NoteError::Render { template, cause }
    &&& template@ == name
    &&& !(rendering is Output)
    &&& rendering matches Rendering::Refused(reason) ==> cause@ == reason
}

/// The step fails because the registry could not be built.
pub open spec fn fails_on_configuration(step: Step, name: Seq<char>) -> bool {
    step matches Step::Failed(error) && is_configuration_error(error, name)
}

/// The step fails because the template `name` did not render.
pub open spec fn fails_on_render(step: Step, name: Seq<char>, rendering: Rendering) -> bool {
    step matches Step::Failed(error) && is_render_error(error, name, rendering)
}

/// The step fails because the body of the template `name` could not be
/// written.
pub open spec fn fails_on_writing(step: Step, name: Seq<char>, cause: Seq<char>) -> bool {
    step matches Step::Failed(NoteError::Render { template, cause: said }) && template@ == name
        && said@ == cause
}

/// The step fails because the file at `path` could not be created.
pub open spec fn fails_on_creation(step: Step, path: Seq<char>, cause: Seq<char>) -> bool {
    step matches Step::Failed(NoteError::FileCreation { path: named, cause: said }) && named@
        == path && said@ == cause
}

/// The path of the note's file, given what the name template rendered to:
/// the rendered name with the configured file type as its default extension,
/// inside the notes directory.
pub open spec fn note_path(note: NoteView, rendered: Seq<char>) -> Seq<char> {
    joined(note.config.notes_dir, with_extension(rendered, note.config.note_file_type))
}

/// The first step: the file to create, unless the registry cannot be built
/// or the name template does not render.
pub open spec fn first_step(note: NoteView, files: Seq<TemplateFile>, step: Step) -> bool {
    match registration_fault(files) {
        Some(name) => fails_on_configuration(step, name),
        None => match text_rendering(built_registry(files), note.name_template, note_model(note)) {
            Rendering::Output(rendered) => step matches Step::Create { path } && path@
                == note_path(note, rendered),
            other => fails_on_render(step, NAME_TEMPLATE_LABEL@, other),
        },
    }
}

/// The step after the file at `path` was created: the body to write to it,
/// unless the registry cannot be built or the body's template does not
/// render.
pub open spec fn second_step(
    note: NoteView,
    files: Seq<TemplateFile>,
    path: Seq<char>,
    step: Step,
) -> bool {
    match registration_fault(files) {
        Some(name) => fails_on_configuration(step, name),
        None => match named_rendering(built_registry(files), note.template, note_model(note)) {
            Rendering::Output(rendered) => step matches Step::Fill { path: named, body }
                && named@ == path && body@ == rendered,
            other => fails_on_render(step, note.template, other),
        },
    }
}

/// The step that follows `progress` for the request `note` with the
/// templates `files`.
pub open spec fn next_step(
    note: NoteView,
    files: Seq<TemplateFile>,
    progress: Progress,
    step: Step,
) -> bool {
    match progress {
        Progress::Started => first_step(note, files, step),
        Progress::Created { path } => second_step(note, files, path@, step),
        Progress::NotCreated { path, cause } => fails_on_creation(step, path@, cause@),
        Progress::Filled { path } => step matches Step::Finished { path: named } && named@
            == path@,
        Progress::NotFilled { path, cause } => fails_on_writing(step, note.template, cause@),
    }
}

/// Without a name template the file is named by what `{{name}}` renders to,
/// with the configured file type as its default extension, inside the notes
/// directory.
pub proof fn default_name_template_names_the_file(
    config: ConfigView,
    template: Option<&String>,
    name: Seq<char>,
    now: Seq<char>,
    meta: Map<Seq<char>, Seq<char>>,
    files: Seq<TemplateFile>,
    rendered: Seq<char>,
    step: Step,
)
    requires
        registration_fault(files) is None,
        text_rendering(
            built_registry(files),
            DEFAULT_NAME_TEMPLATE@,
            note_model(requested(config, template, name, None, now, meta)),
        ) == Rendering::Output(rendered),
        first_step(requested(config, template, name, None, now, meta), files, step),
    ensures
        step matches Step::Create { path } && path@ == joined(
            config.notes_dir,
            with_extension(rendered, config.note_file_type),
        ),
{
}

/// Where the name template renders to a name that is not empty and holds
/// neither a dot nor a `/`, and the configuration names a file type, the
/// first step asks for the file of that name with a dot and the file type,
/// inside the notes directory. The default name template does so where the
/// engine renders `{{name}}` to the note's name.
pub proof fn plain_name_names_the_file(
    note: NoteView,
    files: Seq<TemplateFile>,
    rendered: Seq<char>,
    step: Step,
)
    requires
        registration_fault(files) is None,
        text_rendering(built_registry(files), note.name_template, note_model(note))
            == Rendering::Output(rendered),
        rendered.len() > 0,
        !rendered.contains('.'),
        !rendered.contains('/'),
        note.config.note_file_type.len() > 0,
        first_step(note, files, step),
    ensures
        step matches Step::Create { path } && path@ == joined(
            note.config.notes_dir,
            rendered + seq!['.'] + note.config.note_file_type,
        ),
{
    plain_name_gets_extension(rendered, note.config.note_file_type);
}

/// Two errors of one kind that name the same template or path. The causes
/// are compared where the caller gave them, not where the engine worded them.
pub open spec fn same_error(a: NoteError, b: NoteError) -> bool {
    match (a, b) {
        (
            NoteError::Configuration { template, .. },
            NoteError::Configuration { template: other, .. },
        ) => template@ == other@,
        (NoteError::Render { template, .. }, NoteError::Render { template: other, .. }) => template@
            == other@,
        (
            NoteError::FileCreation { path, cause },
            NoteError::FileCreation { path: other, cause: said },
        ) => path@ == other@ && cause@ == said@,
        _ => false,
    }
}

/// Two steps that ask for the same: one path and one body, or one error.
pub open spec fn same_step(a: Step, b: Step) -> bool {
    match (a, b) {
        (Step::Create { path }, Step::Create { path: other }) => path@ == other@,
        (Step::Fill { path, body }, Step::Fill { path: other, body: text }) => path@ == other@
            && body@ == text@,
        (Step::Finished { path }, Step::Finished { path: other }) => path@ == other@,
        (Step::Failed(error), Step::Failed(other)) => same_error(error, other),
        _ => false,
    }
}

/// The same request with the same templates takes the same step after the
/// same progress: writing a note twice asks for the same file with the same
/// body.
pub proof fn same_request_same_step(
    note: NoteView,
    files: Seq<TemplateFile>,
    progress: Progress,
    a: Step,
    b: Step,
)
    requires
        next_step(note, files, progress, a),
        next_step(note, files, progress, b),
    ensures
        same_step(a, b),
{
}

/// Two requests made of the same arguments at two times take the same step
/// after the same progress, where neither the file name nor the body renders
/// the time differently: the second writing asks for the same file with the
/// same body.
pub proof fn same_arguments_same_step(
    config: ConfigView,
    template: Option<&String>,
    name: Seq<char>,
    name_template: Option<&String>,
    meta: Map<Seq<char>, Seq<char>>,
    first: Seq<char>,
    second: Seq<char>,
    files: Seq<TemplateFile>,
    progress: Progress,
    a: Step,
    b: Step,
)
    requires
        next_step(requested(config, template, name, name_template, first, meta), files, progress, a),
        next_step(
            requested(config, template, name, name_template, second, meta),
            files,
            progress,
            b,
        ),
        text_rendering(
            built_registry(files),
            requested(config, template, name, name_template, first, meta).name_template,
            note_model(requested(config, template, name, name_template, first, meta)),
        ) == text_rendering(
            built_registry(files),
            requested(config, template, name, name_template, second, meta).name_template,
            note_model(requested(config, template, name, name_template, second, meta)),
        ),
        named_rendering(
            built_registry(files),
            requested(config, template, name, name_template, first, meta).template,
            note_model(requested(config, template, name, name_template, first, meta)),
        ) == named_rendering(
            built_registry(files),
            requested(config, template, name, name_template, second, meta).template,
            note_model(requested(config, template, name, name_template, second, meta)),
        ),
    ensures
        same_step(a, b),
{
}

/// Calls `time::OffsetDateTime::now_utc` and writes the result as text.
/// Nothing is stated of the text: it is the time of the call.
#[verifier::external_body]
pub(crate) fn now_utc_text() -> (now: String) {
    time::OffsetDateTime::now_utc().to_string()
}

impl NoteFromTemplate {
    /// The request that the arguments make at the time `now`.
    pub fn at(
        config: &Config,
        template: Option<&String>,
        name: String,
        name_template: Option<&String>,
        now: String,
        meta: StringMap,
    ) -> (note: NoteFromTemplate)
        ensures
            note@ == requested(config@, template, name@, name_template, now@, meta@),
    {
        let template = match template {
            Some(template) => template.clone(),
            None => EMPTY_TEMPLATE_NAME.to_owned(),
        };
        let name_template = match name_template {
            Some(name_template) => name_template.clone(),
            None => DEFAULT_NAME_TEMPLATE.to_owned(),
        };
        NoteFromTemplate {
            config: config.clone(),
            template,
            name,
            name_template,
            now,
            meta: merge(meta, &config.meta),
        }
    }

    /// The request that the arguments make now. The time is read once, here,
    /// so that the file name and the body are rendered against the same.
    pub fn new(
        config: &Config,
        template: Option<&String>,
        name: String,
        name_template: Option<&String>,
        meta: StringMap,
    ) -> (note: NoteFromTemplate)
        ensures
            note@ == requested(config@, template, name@, name_template, note@.now, meta@),
    {
        let now = now_utc_text();
        NoteFromTemplate::at(config, template, name, name_template, now, meta)
    }

    /// What templates see of the request.
    pub fn context(&self) -> (value: serde_json::Value)
        ensures
            json_model(value) == note_model(self@),
    {
        let mut fields: Vec<(String, serde_json::Value)> = Vec::new();
        fields.push(("config".to_owned(), self.config.context()));
        fields.push(("template".to_owned(), json_text(self.template.as_str())));
        fields.push(("name".to_owned(), json_text(self.name.as_str())));
        fields.push(("name_template".to_owned(), json_text(self.name_template.as_str())));
        fields.push(("now".to_owned(), json_text(self.now.as_str())));
        fields.push(("meta".to_owned(), map_value(&self.meta)));
        proof {
            reveal_with_fuel(fields_model, 8);
        }
        json_object(fields)
    }

    /// The name of the note's file: what the name template renders to, with
    /// the configured file type as its default extension.
    pub fn get_file_name(&self, templates: &Templates) -> (r: Result<String, NoteError>)
        ensures
            match text_rendering(templates@, self@.name_template, note_model(self@)) {
                Rendering::Output(rendered) => r matches Ok(name) && name@ == with_extension(
                    rendered,
                    self@.config.note_file_type,
                ),
                other => r matches Err(error) && is_render_error(
                    error,
                    NAME_TEMPLATE_LABEL@,
                    other,
                ),
            },
    {
        let data = self.context();
        match templates.render_template(self.name_template.as_str(), &data) {
            Ok(rendered) => Ok(
                apply_extension(rendered.as_str(), self.config.note_file_type.as_str()),
            ),
            Err(cause) => Err(
                NoteError::Render { template: NAME_TEMPLATE_LABEL.to_owned(), cause },
            ),
        }
    }

    /// One step of writing the note. The caller starts with
    /// `Progress::Started`, does what each step asks, and reports how it
    /// went, until the step is `Finished` or `Failed`. The registry is built
    /// from `files` for each rendering.
    pub fn write(&self, files: &Vec<TemplateFile>, progress: Progress) -> (step: Step)
        ensures
            next_step(self@, files@, progress, step),
    {
        match progress {
            Progress::Started => {
                let templates = match get_templates(files) {
                    Ok(templates) => templates,
                    Err(error) => {
                        return Step::Failed(
                            NoteError::Configuration { template: error.name, cause: error.cause },
                        );
                    },
                };
                match self.get_file_name(&templates) {
                    Ok(name) => Step::Create {
                        path: join_path(self.config.notes_dir.as_str(), name.as_str()),
                    },
                    Err(error) => Step::Failed(error),
                }
            },
            Progress::Created { path } => {
                let templates = match get_templates(files) {
                    Ok(templates) => templates,
                    Err(error) => {
                        return Step::Failed(
                            NoteError::Configuration { template: error.name, cause: error.cause },
                        );
                    },
                };
                let data = self.context();
                match templates.render(self.template.as_str(), &data) {
                    Ok(body) => Step::Fill { path, body },
                    Err(cause) => Step::Failed(
                        NoteError::Render { template: self.template.clone(), cause },
                    ),
                }
            },
            Progress::NotCreated { path, cause } => Step::Failed(
                NoteError::FileCreation { path, cause },
            ),
            Progress::Filled { path } => Step::Finished { path },
            Progress::NotFilled { path, cause } => Step::Failed(
                NoteError::Render { template: self.template.clone(), cause },
            ),
        }
    }
}

} // verus!
