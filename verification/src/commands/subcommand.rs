//! The user's subcommands: shell commands of the configuration, each a
//! template that is rendered before it runs.

use vstd::prelude::*;
use vstd::string::StringExecFns;
use crate::commands::Invocation;
use crate::config::{config_model, Config, ConfigView};
use crate::json::{fields_model, json_model, json_object, json_text, Json};
use crate::note_from_template::{is_configuration_error, is_render_error, NoteError};
use crate::templating::{
    built_registry,
    get_templates,
    registration_fault,
    text_rendering,
    Rendering,
    TemplateFile,
};

verus! {

/// A subcommand of the configuration with the arguments it was called with.
#[derive(Debug)]
pub struct SubCommand {
    config: Config,
    cmd: String,
    args: String,
}

/// A subcommand by the text that it holds.
pub struct SubCommandView {
    pub config: ConfigView,
    /// The command template that the configuration holds for the subcommand.
    pub cmd: Seq<char>,
    /// The arguments, joined by single spaces.
    pub args: Seq<char>,
}

impl View for SubCommand {
    type V = SubCommandView;

    closed spec fn view(&self) -> SubCommandView {
        SubCommandView { config: self.config@, cmd: self.cmd@, args: self.args@ }
    }
}

/// The configuration holds no subcommand of this name.
#[derive(Debug)]
pub struct SubCommandNotFound {
    pub name: String,
}

impl SubCommandNotFound {
    /// The error in words.
    pub fn message(&self) -> (r: String)
        ensures
            r@ == "Subcommand not found in config"@,
    {
        "Subcommand not found in config".to_owned()
    }
}

/// The texts of `args` in order, with one space between each two.
pub open spec fn spaced(args: Seq<String>) -> Seq<char>
    decreases args.len(),
{
    if args.len() == 0 {
        Seq::empty()
    } else if args.len() == 1 {
        args.last()@
    } else {
        spaced(args.drop_last()) + seq![' '] + args.last()@
    }
}

/// What templates see of a subcommand: its configuration, its command
/// template and its arguments.
pub open spec fn subcommand_model(subcommand: SubCommandView) -> Json {
    Json::Object(
        Map::<Seq<char>, Json>::empty().insert("config"@, config_model(subcommand.config)).insert(
            "cmd"@,
            Json::Text(subcommand.cmd),
        ).insert("args"@, Json::Text(subcommand.args)),
    )
}

/// Joins `args` with single spaces.
pub fn join_args(args: &Vec<String>) -> (r: String)
    ensures
        r@ == spaced(args@),
{
    let mut r = String::new();
    let mut i: usize = 0;
    assert(args@.take(0) =~= Seq::<String>::empty());
    while i < args.len()
        invariant
            i <= args.len(),
            r@ == spaced(args@.take(i as int)),
        decreases args.len() - i,
    {
        assert(args@.take(i + 1).drop_last() =~= args@.take(i as int));
        assert(args@.take(i + 1).last() == args@[i as int]);
        if i > 0 {
            proof {
                reveal_strlit(" ");
                assert(" "@ =~= seq![' ']);
            }
            r.append(" ");
        }
        r.append(args[i].as_str());
        assert(r@ =~= spaced(args@.take(i + 1)));
        i += 1;
    }
    assert(args@.take(args@.len() as int) =~= args@);
    r
}

impl SubCommand {
    /// The subcommand `subcommand` of `config`, called with `args`. There is
    /// none where the configuration does not hold the name.
    pub fn try_new(config: &Config, subcommand: &str, args: &Vec<String>) -> (r: Result<
        SubCommand,
        SubCommandNotFound,
    >)
        ensures
            match r {
                Ok(found) => config@.subcommands.contains_key(subcommand@) && found@ == (
                SubCommandView {
                    config: config@,
                    cmd: config@.subcommands[subcommand@],
                    args: spaced(args@),
                }),
                Err(error) => !config@.subcommands.contains_key(subcommand@) && error.name@
                    == subcommand@,
            },
    {
        let args = join_args(args);
        match config.subcommands.get(subcommand) {
            Some(cmd) => Ok(SubCommand { config: config.clone(), cmd: cmd.clone(), args }),
            None => Err(SubCommandNotFound { name: subcommand.to_owned() }),
        }
    }

    /// What templates see of the subcommand.
    pub fn context(&self) -> (value: serde_json::Value)
        ensures
            json_model(value) == subcommand_model(self@),
    {
        let mut fields: Vec<(String, serde_json::Value)> = Vec::new();
        fields.push(("config".to_owned(), self.config.context()));
        fields.push(("cmd".to_owned(), json_text(self.cmd.as_str())));
        fields.push(("args".to_owned(), json_text(self.args.as_str())));
        proof {
            reveal_with_fuel(fields_model, 5);
        }
        json_object(fields)
    }

    /// The program that runs the subcommand: `sh -c` on what the command
    /// template renders to against the subcommand. The registry is built from
    /// `files`; there is no program where it cannot be built or the command
    /// template does not render.
    pub fn run(&self, files: &Vec<TemplateFile>) -> (r: Result<Invocation, NoteError>)
        ensures
            match registration_fault(files@) {
                Some(name) => r matches Err(error) && is_configuration_error(error, name),
                None => match text_rendering(
                    built_registry(files@),
                    self@.cmd,
                    subcommand_model(self@),
                ) {
                    Rendering::Output(rendered) => r matches Ok(invocation) && invocation.is(
                        "sh"@,
                        "-c"@,
                        rendered,
                    ),
                    other => r matches Err(error) && is_render_error(error, self@.cmd, other),
                },
            },
    {
        let templates = match get_templates(files) {
            Ok(templates) => templates,
            Err(error) => {
                return Err(NoteError::Configuration { template: error.name, cause: error.cause });
            },
        };
        let data = self.context();
        match templates.render_template(self.cmd.as_str(), &data) {
            Ok(rendered) => {
                let mut args: Vec<String> = Vec::new();
                args.push("-c".to_owned());
                args.push(rendered);
                Ok(Invocation { program: "sh".to_owned(), args })
            },
            Err(cause) => Err(NoteError::Render { template: self.cmd.clone(), cause }),
        }
    }
}

} // verus!
