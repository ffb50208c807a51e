//! The `mft dump` command.

use vstd::prelude::*;
use vstd::string::*;
use crate::cli::command::Command;
use crate::cli::command::CommandView;
use crate::cli::drive_letter_pattern::resolved;
use crate::cli::drive_letter_pattern::resolved_letters_are_drives;
use crate::cli::drive_letter_pattern::DriveLetterPattern;
use crate::cli::error::from_pattern_error;
use crate::cli::error::pattern_failure;
use crate::cli::error::CliError;
use crate::text::contains_placeholder;
use crate::text::has_placeholder;
use crate::text::replace_placeholder;
use crate::text::texts;
use crate::text::with_placeholder;
use crate::to_args::push_string;
use crate::to_args::push_text;
use crate::to_args::ToArgs;

verus! {

/// Arguments for dumping the MFT of one or more NTFS drives.
#[derive(Debug)]
pub struct MftDumpArgs {
    /// Drive letter(s) to dump the MFT from.
    pub drive_letters: DriveLetterPattern,
    /// Where the dump is saved; `%s` stands for the drive letter where
    /// several drives are dumped.
    pub output_path: String,
    /// Overwrite an existing output file.
    pub overwrite_existing: bool,
}

/// One dump to make.
#[derive(Debug)]
pub struct DumpJob {
    pub drive_letter: char,
    pub output_path: String,
    pub overwrite_existing: bool,
}

/// The drives that a request asks to dump on a machine with the drives of
/// `present`. Several drives need `%s` in the output path, to tell their
/// files apart.
pub open spec fn dump_drives(pattern: Seq<char>, output_path: Seq<char>, present: u32) -> Result<
    Seq<char>,
    CliError,
> {
    match resolved(pattern, present) {
        Err(e) => Err(pattern_failure(e)),
        Ok(drives) => {
            if drives.len() > 1 && !has_placeholder(output_path) {
                Err(CliError::MissingPlaceholder)
            } else {
                Ok(drives)
            }
        },
    }
}

/// The file that one of `count` drives is dumped to: the output path as it
/// stands for a single drive, and with the letter in place of `%s` for one
/// of several.
pub open spec fn job_path(output_path: Seq<char>, count: nat, drive_letter: char) -> Seq<char> {
    if count > 1 {
        with_placeholder(output_path, drive_letter)
    } else {
        output_path
    }
}

/// Whether `jobs` are the dumps of `drives`, in order.
pub open spec fn jobs_for(
    jobs: Seq<DumpJob>,
    drives: Seq<char>,
    output_path: Seq<char>,
    overwrite_existing: bool,
) -> bool {
    &&& jobs.len() == drives.len()
    &&& forall|i: int|
        0 <= i < jobs.len() ==> (#[trigger] jobs[i]).drive_letter == drives[i]
            && jobs[i].output_path@ == job_path(output_path, drives.len(), drives[i])
            && jobs[i].overwrite_existing == overwrite_existing
}

impl MftDumpArgs {
    /// The request that the arguments stand for.
    pub open spec fn command(&self) -> CommandView {
        CommandView::MftDump {
            drive_letters: self.drive_letters.text(),
            output_path: self.output_path@,
            overwrite_existing: self.overwrite_existing,
        }
    }

    /// Turns the arguments into the request to carry out.
    pub fn run(self) -> (c: Command)
        ensures
            c@ == self.command(),
    {
        Command::MftDump {
            drive_letters: self.drive_letters.0,
            output_path: self.output_path,
            overwrite_existing: self.overwrite_existing,
        }
    }

    /// Plans the dumps of the request, one per matched drive. `present` is
    /// the bitmap of the drives of this machine.
    pub fn jobs(&self, present: u32) -> (r: Result<Vec<DumpJob>, CliError>)
        ensures
            match dump_drives(self.drive_letters.text(), self.output_path@, present) {
                Ok(drives) => r is Ok && jobs_for(
                    r->Ok_0@,
                    drives,
                    self.output_path@,
                    self.overwrite_existing,
                ),
                Err(e) => r == Err::<Vec<DumpJob>, CliError>(e),
            },
    {
        let drives = match self.drive_letters.resolve(present) {
            Ok(drives) => drives,
            Err(e) => {
                return Err(from_pattern_error(e));
            },
        };
        proof {
            resolved_letters_are_drives(self.drive_letters.text(), present);
        }
        let many = drives.len() > 1;
        if many && !contains_placeholder(self.output_path.as_str()) {
            return Err(CliError::MissingPlaceholder);
        }
        let mut jobs: Vec<DumpJob> = Vec::new();
        let mut i: usize = 0;
        while i < drives.len()
            invariant
                i <= drives.len(),
                many == (drives@.len() > 1),
                forall|j: int|
                    0 <= j < drives@.len() ==> 'A' <= #[trigger] drives@[j] && drives@[j] <= 'Z',
                jobs@.len() == i,
                forall|j: int|
                    0 <= j < i ==> (#[trigger] jobs@[j]).drive_letter == drives@[j]
                        && jobs@[j].output_path@ == job_path(
                        self.output_path@,
                        drives@.len(),
                        drives@[j],
                    ) && jobs@[j].overwrite_existing == self.overwrite_existing,
            decreases drives.len() - i,
        {
            let letter = drives[i];
            assert('A' <= letter && letter <= 'Z');
            let path = if many {
                replace_placeholder(self.output_path.as_str(), letter)
            } else {
                self.output_path.clone()
            };
            let job = DumpJob {
                drive_letter: letter,
                output_path: path,
                overwrite_existing: self.overwrite_existing,
            };
            let ghost before = jobs@;
            jobs.push(job);
            assert forall|j: int| 0 <= j < i + 1 implies (#[trigger] jobs@[j]).drive_letter
                == drives@[j] && jobs@[j].output_path@ == job_path(
                self.output_path@,
                drives@.len(),
                drives@[j],
            ) && jobs@[j].overwrite_existing == self.overwrite_existing by {
                if j < i {
                    assert(jobs@[j] == before[j]);
                }
            }
            i += 1;
        }
        Ok(jobs)
    }
}

impl ToArgs for MftDumpArgs {
    open spec fn arg_texts(&self) -> Seq<Seq<char>> {
        let head = seq![self.drive_letters.text(), self.output_path@];
        if self.overwrite_existing {
            head.push("--overwrite-existing"@)
        } else {
            head
        }
    }

    fn to_args(&self) -> (args: Vec<String>) {
        let mut args: Vec<String> = Vec::new();
        assert(texts(args@) =~= Seq::empty());
        push_string(&mut args, self.drive_letters.to_text());
        push_string(&mut args, self.output_path.clone());
        assert(texts(args@) =~= seq![self.drive_letters.text(), self.output_path@]);
        if self.overwrite_existing {
            push_text(&mut args, "--overwrite-existing");
        }
        args
    }
}

} // verus!
