//! The `mft diff` command.

use vstd::prelude::*;
use crate::cli::command::Command;
use crate::cli::command::CommandView;
use crate::text::decimal;
use crate::text::decimal_string;
use crate::text::texts;
use crate::to_args::push_string;
use crate::to_args::push_text;
use crate::to_args::ToArgs;

verus! {

/// Arguments for comparing two MFT dumps.
#[derive(Debug)]
pub struct MftDiffArgs {
    /// First dump to compare.
    pub file1: String,
    /// Second dump to compare.
    pub file2: String,
    /// Show byte-by-byte differences.
    pub verbose: bool,
    /// Maximum number of differences to show.
    pub max_diffs: Option<usize>,
}

/// `args` with a flag and its number, where the number is given.
pub open spec fn with_number(args: Seq<Seq<char>>, flag: Seq<char>, n: Option<usize>) -> Seq<
    Seq<char>,
> {
    match n {
        Some(n) => args.push(flag).push(decimal(n as nat)),
        None => args,
    }
}

/// `args` with a flag, where it is set.
pub open spec fn with_flag(args: Seq<Seq<char>>, flag: Seq<char>, on: bool) -> Seq<Seq<char>> {
    if on {
        args.push(flag)
    } else {
        args
    }
}

/// Appends `flag` and `n` in decimal to `args` where `n` is given.
pub fn push_number(args: &mut Vec<String>, flag: &str, n: Option<usize>)
    ensures
        texts(final(args)@) == with_number(texts(old(args)@), flag@, n),
{
    match n {
        Some(n) => {
            push_text(args, flag);
            push_string(args, decimal_string(n as u64));
        },
        None => {},
    }
}

/// Appends `flag` to `args` where `on` holds.
pub fn push_flag(args: &mut Vec<String>, flag: &str, on: bool)
    ensures
        texts(final(args)@) == with_flag(texts(old(args)@), flag@, on),
{
    if on {
        push_text(args, flag);
    }
}

impl MftDiffArgs {
    /// The request that the arguments stand for.
    pub open spec fn command(&self) -> CommandView {
        CommandView::MftDiff {
            file1: self.file1@,
            file2: self.file2@,
            verbose: self.verbose,
            max_diffs: self.max_diffs,
        }
    }

    /// Turns the arguments into the request to carry out.
    pub fn run(self) -> (c: Command)
        ensures
            c@ == self.command(),
    {
        Command::MftDiff {
            file1: self.file1,
            file2: self.file2,
            verbose: self.verbose,
            max_diffs: self.max_diffs,
        }
    }
}

impl ToArgs for MftDiffArgs {
    open spec fn arg_texts(&self) -> Seq<Seq<char>> {
        with_number(
            with_flag(seq![self.file1@, self.file2@], "--verbose"@, self.verbose),
            "--max-diffs"@,
            self.max_diffs,
        )
    }

    fn to_args(&self) -> (args: Vec<String>) {
        let mut args: Vec<String> = Vec::new();
        assert(texts(args@) =~= Seq::empty());
        push_string(&mut args, self.file1.clone());
        push_string(&mut args, self.file2.clone());
        assert(texts(args@) =~= seq![self.file1@, self.file2@]);
        push_flag(&mut args, "--verbose", self.verbose);
        push_number(&mut args, "--max-diffs", self.max_diffs);
        args
    }
}

} // verus!
