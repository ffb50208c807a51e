//! The `elevation` command.

use vstd::prelude::*;
use crate::cli::command::Command;
use crate::cli::command::CommandView;
use crate::cli::elevation_check_action::ElevationCheckArgs;
use crate::cli::elevation_test_action::ElevationTestArgs;
use crate::text::texts;
use crate::to_args::push_all;
use crate::to_args::push_text;
use crate::to_args::ToArgs;

verus! {

/// Administrative privilege operations.
#[derive(Clone, Copy, Debug, PartialEq, Eq, Structural)]
pub enum ElevationAction {
    /// Check if the current process is running with administrator privileges.
    Check(ElevationCheckArgs),
    /// Test elevation by relaunching with administrator privileges.
    Test(ElevationTestArgs),
}

impl ElevationAction {
    /// The request that the action stands for.
    pub open spec fn command(&self) -> CommandView {
        match self {
            ElevationAction::Check(_) => CommandView::ElevationCheck,
            ElevationAction::Test(_) => CommandView::ElevationTest,
        }
    }

    /// Turns the action into the request to carry out.
    pub fn run(self) -> (c: Command)
        ensures
            c@ == self.command(),
    {
        match self {
            ElevationAction::Check(args) => args.run(),
            ElevationAction::Test(args) => args.run(),
        }
    }
}

impl ToArgs for ElevationAction {
    open spec fn arg_texts(&self) -> Seq<Seq<char>> {
        match self {
            ElevationAction::Check(args) => seq!["check"@] + args.arg_texts(),
            ElevationAction::Test(args) => seq!["test"@] + args.arg_texts(),
        }
    }

    fn to_args(&self) -> (args: Vec<String>) {
        let mut args: Vec<String> = Vec::new();
        assert(texts(args@) =~= Seq::empty());
        match self {
            ElevationAction::Check(check_args) => {
                push_text(&mut args, "check");
                assert(texts(args@) =~= seq!["check"@]);
                push_all(&mut args, check_args.to_args());
            },
            ElevationAction::Test(test_args) => {
                push_text(&mut args, "test");
                assert(texts(args@) =~= seq!["test"@]);
                push_all(&mut args, test_args.to_args());
            },
        }
        args
    }
}

/// The arguments of the `elevation` command.
#[derive(Clone, Copy, Debug, PartialEq, Eq, Structural)]
pub struct ElevationArgs {
    pub action: ElevationAction,
}

impl ElevationArgs {
    /// Turns the arguments into the request to carry out.
    pub fn run(self) -> (c: Command)
        ensures
            c@ == self.action.command(),
    {
        self.action.run()
    }
}

impl ToArgs for ElevationArgs {
    open spec fn arg_texts(&self) -> Seq<Seq<char>> {
        self.action.arg_texts()
    }

    fn to_args(&self) -> (args: Vec<String>) {
        self.action.to_args()
    }
}

} // verus!
