//! The commands besides note creation: listing the notes, and the user's own
//! subcommands. Each states the program to run; running it is the caller's.

use vstd::prelude::*;

pub mod ls;
pub mod subcommand;

verus! {

/// A program to run in place of this one, with its arguments.
#[derive(Debug)]
pub struct Invocation {
    pub program: String,
    pub args: Vec<String>,
}

impl Invocation {
    /// The program is `program` and the arguments are `first` and `second`.
    pub open spec fn is(self, program: Seq<char>, first: Seq<char>, second: Seq<char>) -> bool {
        &&& self.program@ == program
        &&& self.args@.len() == 2
        &&& self.args@[0]@ == first
        &&& self.args@[1]@ == second
    }
}

} // verus!
