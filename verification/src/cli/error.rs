//! Why a request cannot be carried out as it was written.

use vstd::prelude::*;
use crate::cli::drive_letter_pattern::PatternError;

verus! {

/// A request that the command line states but that makes no sense.
#[derive(Clone, Copy, Debug, PartialEq, Eq, Structural)]
pub enum CliError {
    /// The drive letter pattern holds an invalid character.
    InvalidDrivePattern,
    /// The drive letter pattern matches no drive.
    NoDrives,
    /// Several drives are to be dumped, but the output path has no `%s` to
    /// tell their files apart.
    MissingPlaceholder,
    /// The search query is empty.
    EmptyQuery,
}

/// The error of a request for a pattern that does not resolve.
pub open spec fn pattern_failure(e: PatternError) -> CliError {
    match e {
        PatternError::InvalidCharacter => CliError::InvalidDrivePattern,
        PatternError::NoDrives => CliError::NoDrives,
    }
}

/// The error of a request for a pattern that does not resolve.
pub fn from_pattern_error(e: PatternError) -> (r: CliError)
    ensures
        r == pattern_failure(e),
{
    match e {
        PatternError::InvalidCharacter => CliError::InvalidDrivePattern,
        PatternError::NoDrives => CliError::NoDrives,
    }
}

} // verus!
