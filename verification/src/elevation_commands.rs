//! Elevation: what to do when the program does or does not run with
//! administrator privileges. Finding out and relaunching are left to the
//! caller.

use vstd::prelude::*;
use vstd::string::*;
use crate::cli::action::Action;
use crate::cli::elevation_action::ElevationAction;
use crate::cli::elevation_action::ElevationArgs;
use crate::cli::elevation_check_action::ElevationCheckArgs;
use crate::cli::global_args::GlobalArgs;
use crate::cli::Cli;
use crate::text::texts;
use crate::to_args::ToArgs;

verus! {

/// The largest value with which the system reports that a relaunch failed.
pub const RELAUNCH_FAILURE_MAX: usize = 32;

/// What an elevation check prints.
pub open spec fn elevation_text(elevated: bool) -> Seq<char> {
    if elevated {
        "Elevated"@
    } else {
        "Not Elevated"@
    }
}

/// What an elevation check prints.
pub fn check_elevation(elevated: bool) -> (s: &'static str)
    ensures
        s@ == elevation_text(elevated),
{
    if elevated {
        "Elevated"
    } else {
        "Not Elevated"
    }
}

/// The command line that a relaunch runs to show that it is elevated:
/// `elevation check`, without global arguments.
pub fn create_elevation_check_cli() -> (cli: Cli)
    ensures
        cli.arg_texts() == seq!["elevation"@, "check"@],
{
    let cli = Cli {
        global_args: GlobalArgs { debug: false },
        action: Action::Elevation(
            ElevationArgs { action: ElevationAction::Check(ElevationCheckArgs {  }) },
        ),
    };
    assert(cli.arg_texts() =~= seq!["elevation"@, "check"@]);
    cli
}

/// What is to be done to come to elevated privileges.
#[derive(Debug)]
pub enum ElevationStep {
    /// The process is elevated: nothing is spawned.
    AlreadyElevated,
    /// The program is to be started again, elevated, with these arguments.
    Relaunch(Vec<String>),
}

/// The arguments of a step, if it relaunches.
pub open spec fn relaunch_args(step: ElevationStep) -> Option<Seq<Seq<char>>> {
    match step {
        ElevationStep::AlreadyElevated => None,
        ElevationStep::Relaunch(args) => Some(texts(args@)),
    }
}

/// The elevation test: an elevated process has passed it and spawns
/// nothing; any other is relaunched as `elevation check`.
pub fn test_elevation(elevated: bool) -> (step: ElevationStep)
    ensures
        elevated ==> step is AlreadyElevated,
        !elevated ==> relaunch_args(step) == Some(seq!["elevation"@, "check"@]),
{
    if elevated {
        ElevationStep::AlreadyElevated
    } else {
        ElevationStep::Relaunch(create_elevation_check_cli().to_args())
    }
}

/// Makes sure that a command runs elevated: an elevated process goes on; any
/// other is relaunched with the arguments `args` that it was started with.
pub fn ensure_elevated(elevated: bool, args: Vec<String>) -> (step: ElevationStep)
    ensures
        elevated ==> step is AlreadyElevated,
        !elevated ==> relaunch_args(step) == Some(texts(args@)),
{
    if elevated {
        ElevationStep::AlreadyElevated
    } else {
        ElevationStep::Relaunch(args)
    }
}

/// Why a relaunch did not come about.
#[derive(Clone, Copy, Debug, PartialEq, Eq, Structural)]
pub enum RelaunchError {
    /// The system refused, with this code.
    Refused(usize),
}

/// Reads the value that the system returns for a relaunch: values above 32
/// mean that the elevated process was started.
pub fn relaunch_outcome(value: usize) -> (r: Result<(), RelaunchError>)
    ensures
        value > RELAUNCH_FAILURE_MAX ==> r is Ok,
        value <= RELAUNCH_FAILURE_MAX ==> r == Err::<(), RelaunchError>(
            RelaunchError::Refused(value),
        ),
{
    if value > RELAUNCH_FAILURE_MAX {
        Ok(())
    } else {
        Err(RelaunchError::Refused(value))
    }
}

/// A 32-bit exit code read as a signed number.
pub open spec fn signed_code(child_code: u32) -> int {
    if child_code <= i32::MAX {
        child_code as int
    } else {
        child_code - 0x1_0000_0000
    }
}

/// The exit code of a process that waited for its elevated child: the
/// child's own code, bit for bit.
pub fn propagated_exit_code(child_code: u32) -> (code: i32)
    ensures
        code == signed_code(child_code),
{
    if child_code <= 0x7fff_ffff {
        child_code as i32
    } else {
        let below: u32 = 0xffff_ffff - child_code;
        -1 - (below as i32)
    }
}

} // verus!
