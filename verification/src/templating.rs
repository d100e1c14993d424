//! The template registry: the `handlebars` engine with the `date` helper, the
//! reserved empty template and the templates of the templates directory.

use vstd::prelude::*;
use vstd::string::StringExecFns;
use handlebars::{
    Context,
    Handlebars,
    Helper,
    HelperResult,
    Output,
    PathAndJson,
    RenderContext,
    RenderError,
};
use crate::date::{date_for_template, Argument};
use crate::json::{json_model, Json};
use crate::partials::{
    name_ends,
    partial_names,
    source_is_finite,
    source_is_readable,
    template_is_finite,
    text_ends,
};
use crate::string_map::StringMap;
use crate::text::{chars_of, ends_with};

verus! {

/// The name of the template that renders to nothing.
pub const EMPTY_TEMPLATE_NAME: &'static str = "empty";

/// The name under which the date helper is registered.
pub const DATE_HELPER_NAME: &'static str = "date";

/// The helper's option that names the output format.
pub const DATE_FORMAT_OPTION: &'static str = "fmt";

/// What is said of templates whose inclusions may go on without end.
pub const INCLUSION_FAULT: &'static str =
    "templates include each other in a circle, or in a way that cannot be followed";

/// What is said of a template text whose inclusions cannot be read.
pub const UNREADABLE_PARTIAL: &'static str =
    "the template names a partial in a way that cannot be followed";

/// The ending of the file names that hold a template.
pub const TEMPLATE_EXTENSION: &'static str = ".hbs";

#[verifier::external_type_specification]
#[verifier::external_body]
pub struct ExHandlebars<'reg>(Handlebars<'reg>);

/// A registry by what decides its renderings: the name of its date helper,
/// the name of the helper's option for the output format, and the source of
/// each template that it holds, by the template's name.
pub struct Registry {
    pub helper: Seq<char>,
    pub option: Seq<char>,
    pub templates: Map<Seq<char>, Seq<char>>,
}

/// The templates that `engine` holds: the source of each, by its name.
pub uninterp spec fn registered(engine: Handlebars<'static>) -> Map<Seq<char>, Seq<char>>;

/// The name under which `engine` was given the date helper, and the name of
/// the helper's option for the output format.
pub uninterp spec fn date_helper(engine: Handlebars<'static>) -> (Seq<char>, Seq<char>);

/// An engine by what decides its renderings.
pub open spec fn engine_view(engine: Handlebars<'static>) -> Registry {
    Registry {
        helper: date_helper(engine).0,
        option: date_helper(engine).1,
        templates: registered(engine),
    }
}

/// Whether the engine compiles `source` under `name`.
pub uninterp spec fn template_compiles(name: Seq<char>, source: Seq<char>) -> bool;

/// What an engine that is set up as `registry` renders from the template
/// text `source` against `data`; `None` where the rendering fails.
pub uninterp spec fn source_output(registry: Registry, source: Seq<char>, data: Json) -> Option<
    Seq<char>,
>;

/// What an engine that is set up as `registry` renders from its template
/// `name` against `data`; `None` where the rendering fails.
pub uninterp spec fn named_output(registry: Registry, name: Seq<char>, data: Json) -> Option<
    Seq<char>,
>;

/// Calls `Handlebars::new` and `Handlebars::register_helper`, which puts the
/// date helper of this library under the name `helper`. The helper hands its
/// first parameter and its option `option` to `date_for_template`, each as
/// absent, as a text or as another value. It writes the text that comes back,
/// escaped as the engine escapes the values of a template, and fails the
/// rendering with the message that comes back. The new engine holds no
/// template.
#[verifier::external_body]
fn new_engine(helper: &str, option: &'static str) -> (engine: Handlebars<'static>)
    ensures
        registered(engine) == (Map::<Seq<char>, Seq<char>>::empty()),
        date_helper(engine) == (helper@, option@),
{
    let pick = |given: Option<&PathAndJson>| match given.map(|p| p.value()) {
        None => Argument::Absent,
        Some(serde_json::Value::String(text)) => Argument::Text(text.clone()),
        _ => Argument::Other,
    };
    let mut engine = Handlebars::new();
    engine.register_helper(helper, Box::new(
        move |h: &Helper, r: &Handlebars, _: &Context, rc: &mut RenderContext, out: &mut dyn Output| -> HelperResult {
            let text = date_for_template(&pick(h.param(0)), &pick(h.hash_get(option)))
                .map_err(RenderError::new)?;
            out.write(&if rc.is_disable_escape() { text } else { r.get_escape_fn()(&text) })?;
            Ok(())
        }));
    engine
}

/// Calls `Handlebars::register_template_string`. It compiles `source`; where
/// that fails, the result is the error's message and the engine holds what it
/// held; where it succeeds, the engine holds `source` under `name`, in place
/// of what it held under that name. Nothing is stated of the message.
#[verifier::external_body]
fn register(engine: &mut Handlebars<'static>, name: &str, source: &str) -> (r: Result<(), String>)
    ensures
        r is Ok <==> template_compiles(name@, source@),
        r is Ok ==> registered(*final(engine)) == registered(*old(engine)).insert(name@, source@),
        r is Err ==> registered(*final(engine)) == registered(*old(engine)),
        date_helper(*final(engine)) == date_helper(*old(engine)),
{
    engine.register_template_string(name, source).map_err(|e| e.to_string())
}

/// Calls `Handlebars::render_template`: renders the template text `source`
/// against `data`. The result is the output, or the error's message, of which
/// nothing is stated. The engine follows a partial into the template of its
/// name without a limit, so the call is for texts whose chains of inclusions
/// end, read in one of two ways. Either every partial that can be reached has
/// a plain name and there is no decorator on the way; or the texts that the
/// templates on the way bring with them, in blocks of partials and of
/// decorators, hold no partial, and no partial has a name that is computed or
/// quoted. In both, no template on the way can reach itself.
#[verifier::external_body]
fn render_source(engine: &Handlebars<'static>, source: &str, data: &serde_json::Value) -> (r:
    Result<String, String>)
    requires
        source_is_finite(registered(*engine), source@),
    ensures
        r matches Ok(text) ==> source_output(engine_view(*engine), source@, json_model(*data))
            == Some(text@),
        r is Err ==> source_output(engine_view(*engine), source@, json_model(*data)) is None,
{
    engine.render_template(source, data).map_err(|e| e.to_string())
}

/// Calls `Handlebars::render`: renders the template that the engine holds
/// under `name` against `data`. The result is the output, or the error's
/// message, of which nothing is stated. The engine follows a partial into the
/// template of its name without a limit, so the call is for templates whose
/// chains of inclusions end, read in one of two ways. Either every partial
/// that can be reached has a plain name and there is no decorator on the way;
/// or the texts that the templates on the way bring with them, in blocks of
/// partials and of decorators, hold no partial, and no partial has a name
/// that is computed or quoted. In both, no template on the way can reach
/// itself.
#[verifier::external_body]
fn render_named(engine: &Handlebars<'static>, name: &str, data: &serde_json::Value) -> (r: Result<
    String,
    String,
>)
    requires
        template_is_finite(registered(*engine), name@),
    ensures
        r matches Ok(text) ==> named_output(engine_view(*engine), name@, json_model(*data))
            == Some(text@),
        r is Err ==> named_output(engine_view(*engine), name@, json_model(*data)) is None,
{
    engine.render(name, data).map_err(|e| e.to_string())
}

/// A template of the templates directory: its name and its text.
#[derive(Debug)]
pub struct TemplateFile {
    pub name: String,
    pub source: String,
}

/// A template that could not be registered.
#[derive(Debug)]
pub struct TemplateError {
    /// The name of the template at fault.
    pub name: String,
    /// What the engine said of it.
    pub cause: String,
}

impl TemplateError {
    /// The error in words, naming the template.
    pub fn message(&self) -> (r: String)
        ensures
            r@ == "Could not register template "@ + self.name@ + ": "@ + self.cause@,
    {
        let mut r = "Could not register template ".to_owned();
        r.append(self.name.as_str());
        r.append(": ");
        r.append(self.cause.as_str());
        r
    }
}

/// The registry: an engine with the `date` helper and a set of templates,
/// and beside it the text of each template, by which the inclusions of a
/// template are judged before it is rendered.
pub struct Templates {
    engine: Handlebars<'static>,
    sources: StringMap,
}

impl View for Templates {
    type V = Registry;

    closed spec fn view(&self) -> Registry {
        engine_view(self.engine)
    }
}

impl Templates {
    /// The texts beside the engine are those that the engine holds.
    #[verifier::type_invariant]
    closed spec fn sources_are_registered(&self) -> bool {
        self.sources@ == registered(self.engine)
    }
}

/// Whether a file of this name holds a template: the name ends in `.hbs`
/// and starts with neither `.` nor `#`, which mark hidden and temporary
/// files.
pub open spec fn is_template_file(file_name: Seq<char>) -> bool {
    &&& file_name.len() >= TEMPLATE_EXTENSION@.len()
    &&& file_name.skip(file_name.len() - TEMPLATE_EXTENSION@.len()) == TEMPLATE_EXTENSION@
    &&& file_name[0] != '.'
    &&& file_name[0] != '#'
}

/// The name of the template that the file `file_name` of the templates
/// directory holds: the file name without `.hbs`. `None` for a file that
/// holds no template.
pub fn template_name(file_name: &str) -> (r: Option<String>)
    ensures
        r is Some <==> is_template_file(file_name@),
        r matches Some(name) ==> name@ + TEMPLATE_EXTENSION@ == file_name@,
{
    proof {
        reveal_strlit(".hbs");
    }
    let chars = chars_of(file_name);
    let ending = chars_of(TEMPLATE_EXTENSION);
    if ends_with(&chars, &ending) && chars[0] != '.' && chars[0] != '#' {
        let name = file_name.substring_char(0, chars.len() - ending.len()).to_owned();
        assert(name@ + TEMPLATE_EXTENSION@ =~= file_name@) by {
            assert(file_name@.skip(file_name@.len() - ending@.len()) == ending@);
            assert(name@ =~= file_name@.take(file_name@.len() - ending@.len()));
        }
        Some(name)
    } else {
        None
    }
}

/// The templates that a registry holds once `files` have been registered in
/// order after the empty template: of two templates with one name the later
/// one stays.
pub open spec fn registry_of(files: Seq<TemplateFile>) -> Map<Seq<char>, Seq<char>>
    decreases files.len(),
{
    if files.len() == 0 {
        Map::<Seq<char>, Seq<char>>::empty().insert(EMPTY_TEMPLATE_NAME@, Seq::empty())
    } else {
        registry_of(files.drop_last()).insert(files.last().name@, files.last().source@)
    }
}

/// The registry always holds the empty template, with an empty body unless
/// a file takes its name. It holds the template of every file under the
/// file's name, with the text of the last file of that name.
pub proof fn registry_holds(files: Seq<TemplateFile>)
    ensures
        registry_of(files).contains_key(EMPTY_TEMPLATE_NAME@),
        (forall|i: int| 0 <= i < files.len() ==> (#[trigger] files[i]).name@
            != EMPTY_TEMPLATE_NAME@) ==> registry_of(files)[EMPTY_TEMPLATE_NAME@]
            == Seq::<char>::empty(),
        forall|i: int|
            0 <= i < files.len() ==> registry_of(files).contains_key((#[trigger] files[i]).name@),
        forall|i: int|
            0 <= i < files.len() && (forall|j: int|
                i < j < files.len() ==> (#[trigger] files[j]).name@ != files[i].name@)
                ==> registry_of(files)[(#[trigger] files[i]).name@] == files[i].source@,
    decreases files.len(),
{
    if files.len() > 0 {
        let rest = files.drop_last();
        let last = files.last();
        registry_holds(rest);
        assert forall|i: int| 0 <= i < files.len() implies registry_of(files).contains_key(
            (#[trigger] files[i]).name@,
        ) by {
            if i < rest.len() {
                assert(rest[i] == files[i]);
            }
        }
        if forall|i: int| 0 <= i < files.len() ==> (#[trigger] files[i]).name@
            != EMPTY_TEMPLATE_NAME@ {
            assert forall|i: int| 0 <= i < rest.len() implies (#[trigger] rest[i]).name@
                != EMPTY_TEMPLATE_NAME@ by {
                assert(rest[i] == files[i]);
            }
            assert(files[files.len() - 1].name@ != EMPTY_TEMPLATE_NAME@);
        }
        assert forall|i: int|
            0 <= i < files.len() && (forall|j: int|
                i < j < files.len() ==> (#[trigger] files[j]).name@
                    != files[i].name@) implies registry_of(files)[(#[trigger] files[i]).name@]
            == files[i].source@ by {
            if i < rest.len() {
                assert(rest[i] == files[i]);
                assert(files[files.len() - 1].name@ != files[i].name@);
                assert forall|j: int| i < j < rest.len() implies (#[trigger] rest[j]).name@
                    != rest[i].name@ by {
                    assert(rest[j] == files[j]);
                }
            }
        }
    }
}

/// The first of `files` that the engine does not compile, by its name.
pub open spec fn first_file_fault(files: Seq<TemplateFile>) -> Option<Seq<char>>
    decreases files.len(),
{
    if files.len() == 0 {
        None
    } else if !template_compiles(files.first().name@, files.first().source@) {
        Some(files.first().name@)
    } else {
        first_file_fault(files.drop_first())
    }
}

/// The first template that the engine does not compile when the empty
/// template and then `files` are registered, by its name; `None` where it
/// compiles them all.
pub open spec fn registration_fault(files: Seq<TemplateFile>) -> Option<Seq<char>> {
    if !template_compiles(EMPTY_TEMPLATE_NAME@, Seq::empty()) {
        Some(EMPTY_TEMPLATE_NAME@)
    } else {
        first_file_fault(files)
    }
}

/// The registry that is built from `files`: the date helper under the name
/// `date` with the option `fmt`, the empty template, and the templates of
/// `files`.
pub open spec fn built_registry(files: Seq<TemplateFile>) -> Registry {
    Registry {
        helper: DATE_HELPER_NAME@,
        option: DATE_FORMAT_OPTION@,
        templates: registry_of(files),
    }
}

/// Builds the registry: a new engine with the `date` helper, the empty
/// template, and then `files` in order. There is a registry exactly where the
/// engine compiles them all; else the first template that it does not compile
/// is named, with what the engine says of it.
pub fn get_templates(files: &Vec<TemplateFile>) -> (r: Result<Templates, TemplateError>)
    ensures
        match registration_fault(files@) {
            None => r matches Ok(templates) && templates@ == built_registry(files@),
            Some(name) => r matches Err(error) && error.name@ == name,
        },
{
    let mut engine = new_engine(DATE_HELPER_NAME, DATE_FORMAT_OPTION);
    let mut sources = StringMap::new();
    proof {
        reveal_strlit("");
        assert(""@ =~= Seq::<char>::empty());
    }
    match register(&mut engine, EMPTY_TEMPLATE_NAME, "") {
        Ok(()) => {
            sources.insert(EMPTY_TEMPLATE_NAME.to_owned(), "".to_owned());
        },
        Err(cause) => {
            return Err(TemplateError { name: EMPTY_TEMPLATE_NAME.to_owned(), cause });
        },
    }
    let mut i: usize = 0;
    assert(files@.take(0) =~= Seq::<TemplateFile>::empty());
    assert(files@.skip(0) =~= files@);
    while i < files.len()
        invariant
            i <= files.len(),
            template_compiles(EMPTY_TEMPLATE_NAME@, Seq::empty()),
            first_file_fault(files@) == first_file_fault(files@.skip(i as int)),
            registered(engine) == registry_of(files@.take(i as int)),
            sources@ == registered(engine),
            date_helper(engine) == (DATE_HELPER_NAME@, DATE_FORMAT_OPTION@),
        decreases files.len() - i,
    {
        assert(files@.take(i + 1).drop_last() =~= files@.take(i as int));
        assert(files@.take(i + 1).last() == files@[i as int]);
        assert(files@.skip(i as int).first() == files@[i as int]);
        assert(files@.skip(i as int).drop_first() =~= files@.skip(i + 1));
        match register(&mut engine, files[i].name.as_str(), files[i].source.as_str()) {
            Ok(()) => {
                sources.insert(files[i].name.clone(), files[i].source.clone());
            },
            Err(cause) => {
                return Err(TemplateError { name: files[i].name.clone(), cause });
            },
        }
        i += 1;
    }
    assert(files@.take(files@.len() as int) =~= files@);
    assert(files@.skip(files@.len() as int) =~= Seq::<TemplateFile>::empty());
    Ok(Templates { engine, sources })
}

/// How a rendering ends.
pub enum Rendering {
    /// The engine gave this output.
    Output(Seq<char>),
    /// The engine was not asked, for the reason that these words give.
    Refused(Seq<char>),
    /// The engine failed. What it says of the failure is its own.
    Failed,
}

/// Whether `r` is the result of a rendering that ends as `rendering` says.
pub open spec fn renders(r: Result<String, String>, rendering: Rendering) -> bool {
    match rendering {
        Rendering::Output(text) => r matches Ok(output) && output@ == text,
        Rendering::Refused(reason) => r matches Err(cause) && cause@ == reason,
        Rendering::Failed => r is Err,
    }
}

/// How the rendering of the template text `source` against `data` ends. The
/// engine is not asked where the inclusions of `source` cannot be read from
/// it, nor where the chains of inclusions from it may not end.
pub open spec fn text_rendering(registry: Registry, source: Seq<char>, data: Json) -> Rendering {
    if !source_is_readable(source) {
        Rendering::Refused(UNREADABLE_PARTIAL@)
    } else if !source_is_finite(registry.templates, source) {
        Rendering::Refused(INCLUSION_FAULT@)
    } else {
        match source_output(registry, source, data) {
            Some(text) => Rendering::Output(text),
            None => Rendering::Failed,
        }
    }
}

/// How the rendering of the registered template `name` against `data` ends.
/// The engine is not asked where the chains of inclusions from the template
/// may not end.
pub open spec fn named_rendering(registry: Registry, name: Seq<char>, data: Json) -> Rendering {
    if !template_is_finite(registry.templates, name) {
        Rendering::Refused(INCLUSION_FAULT@)
    } else {
        match named_output(registry, name, data) {
            Some(text) => Rendering::Output(text),
            None => Rendering::Failed,
        }
    }
}

impl Templates {
    /// Renders the template text `source` against `data`. The result is the
    /// output, or the engine's message where it fails. A text whose
    /// inclusions cannot be read from it is not rendered, nor one that
    /// includes a template whose chains of inclusions may not end.
    pub fn render_template(&self, source: &str, data: &serde_json::Value) -> (r: Result<
        String,
        String,
    >)
        ensures
            renders(r, text_rendering(self@, source@, json_model(*data))),
    {
        proof {
            use_type_invariant(self);
        }
        if text_ends(true, &self.sources, source) || text_ends(false, &self.sources, source) {
            render_source(&self.engine, source, data)
        } else if partial_names(true, source).is_some() || partial_names(false, source).is_some() {
            Err(INCLUSION_FAULT.to_owned())
        } else {
            Err(UNREADABLE_PARTIAL.to_owned())
        }
    }

    /// Renders the registered template `name` against `data`. The result is
    /// the output, or the engine's message where it fails. A template whose
    /// chains of inclusions may not end is not rendered: one that can reach
    /// itself through the partials it names, or on whose way a partial cannot
    /// be read from the text.
    pub fn render(&self, name: &str, data: &serde_json::Value) -> (r: Result<String, String>)
        ensures
            renders(r, named_rendering(self@, name@, json_model(*data))),
    {
        proof {
            use_type_invariant(self);
        }
        if name_ends(true, &self.sources, name) || name_ends(false, &self.sources, name) {
            render_named(&self.engine, name, data)
        } else {
            Err(INCLUSION_FAULT.to_owned())
        }
    }
}

} // verus!
