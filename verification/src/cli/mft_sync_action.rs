//! The `mft sync` command.

use vstd::prelude::*;
use vstd::string::*;
use crate::cli::command::Command;
use crate::cli::command::CommandView;
use crate::cli::drive_letter_pattern::resolved;
use crate::cli::drive_letter_pattern::DriveLetterPattern;
use crate::cli::error::from_pattern_error;
use crate::cli::error::pattern_failure;
use crate::cli::error::CliError;
use crate::text::texts;
use crate::to_args::push_string;
use crate::to_args::push_text;
use crate::to_args::ToArgs;

verus! {

/// Arguments for syncing MFT dumps into the cache directory.
#[derive(Debug)]
pub struct MftSyncArgs {
    /// Drive letter pattern to match drives to sync.
    pub drive_pattern: DriveLetterPattern,
    /// Overwrite existing cached dumps.
    pub overwrite_existing: bool,
}

/// The name of the cached dump of a drive: its letter and `.mft`.
pub open spec fn cache_file_text(drive_letter: char) -> Seq<char> {
    seq![drive_letter, '.', 'm', 'f', 't']
}

/// The name of the cached dump of a drive.
pub fn cache_file_name(drive_letter: char) -> (name: String)
    ensures
        name@ == cache_file_text(drive_letter),
{
    let mut name = String::new();
    name.push(drive_letter);
    name.push('.');
    name.push('m');
    name.push('f');
    name.push('t');
    assert(name@ =~= cache_file_text(drive_letter));
    name
}

impl MftSyncArgs {
    /// The request that the arguments stand for.
    pub open spec fn command(&self) -> CommandView {
        CommandView::MftSync {
            drive_pattern: self.drive_pattern.text(),
            overwrite_existing: self.overwrite_existing,
        }
    }

    /// Turns the arguments into the request to carry out.
    pub fn run(self) -> (c: Command)
        ensures
            c@ == self.command(),
    {
        Command::MftSync {
            drive_pattern: self.drive_pattern.0,
            overwrite_existing: self.overwrite_existing,
        }
    }

    /// The drives to sync on a machine with the drives of `present`.
    pub fn drives(&self, present: u32) -> (r: Result<Vec<char>, CliError>)
        ensures
            match resolved(self.drive_pattern.text(), present) {
                Ok(letters) => r is Ok && r->Ok_0@ == letters,
                Err(e) => r == Err::<Vec<char>, CliError>(pattern_failure(e)),
            },
    {
        match self.drive_pattern.resolve(present) {
            Ok(letters) => Ok(letters),
            Err(e) => Err(from_pattern_error(e)),
        }
    }
}

impl ToArgs for MftSyncArgs {
    open spec fn arg_texts(&self) -> Seq<Seq<char>> {
        let head = seq![self.drive_pattern.text()];
        if self.overwrite_existing {
            head.push("--overwrite-existing"@)
        } else {
            head
        }
    }

    fn to_args(&self) -> (args: Vec<String>) {
        let mut args: Vec<String> = Vec::new();
        assert(texts(args@) =~= Seq::empty());
        push_string(&mut args, self.drive_pattern.to_text());
        assert(texts(args@) =~= seq![self.drive_pattern.text()]);
        if self.overwrite_existing {
            push_text(&mut args, "--overwrite-existing");
        }
        args
    }
}

} // verus!
