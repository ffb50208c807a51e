//! The `elevation test` command.

use vstd::prelude::*;
use crate::cli::command::Command;
use crate::cli::command::CommandView;
use crate::text::texts;
use crate::to_args::ToArgs;

verus! {

/// The arguments of `elevation test`: none.
#[derive(Clone, Copy, Debug, PartialEq, Eq, Structural)]
pub struct ElevationTestArgs {}

impl ElevationTestArgs {
    /// Turns the arguments into the request to carry out.
    pub fn run(self) -> (c: Command)
        ensures
            c@ == CommandView::ElevationTest,
    {
        Command::ElevationTest
    }
}

impl ToArgs for ElevationTestArgs {
    open spec fn arg_texts(&self) -> Seq<Seq<char>> {
        Seq::empty()
    }

    fn to_args(&self) -> (args: Vec<String>) {
        let args: Vec<String> = Vec::new();
        assert(texts(args@) =~= Seq::empty());
        args
    }
}

} // verus!
