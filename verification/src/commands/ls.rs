//! Listing the notes.

use vstd::prelude::*;
use crate::commands::Invocation;
use crate::config::{Config, ConfigView};

verus! {

/// The request to list the notes of a configuration.
#[derive(Debug)]
pub struct ListNotes {
    config: Config,
}

impl View for ListNotes {
    type V = ConfigView;

    /// The configuration whose notes are listed.
    closed spec fn view(&self) -> ConfigView {
        self.config@
    }
}

impl ListNotes {
    /// The request to list the notes of `config`.
    pub fn new(config: &Config) -> (r: Self)
        ensures
            r@ == config@,
    {
        ListNotes { config: config.clone() }
    }

    /// The program that lists the notes: `ls -1` on the notes directory.
    pub fn run(&self) -> (r: Invocation)
        ensures
            r.is("ls"@, "-1"@, self@.notes_dir),
    {
        let mut args: Vec<String> = Vec::new();
        args.push("-1".to_owned());
        args.push(self.config.notes_dir.clone());
        Invocation { program: "ls".to_owned(), args }
    }
}

} // verus!
