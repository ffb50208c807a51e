//! Arguments that every command takes.

use vstd::prelude::*;
use crate::text::texts;
use crate::to_args::push_text;
use crate::to_args::ToArgs;

verus! {

/// How much the program logs.
#[derive(Clone, Copy, Debug, PartialEq, Eq, Structural)]
pub enum LogLevel {
    Debug,
    Info,
}

/// Arguments that every command takes.
#[derive(Clone, Copy, Debug, PartialEq, Eq, Structural)]
pub struct GlobalArgs {
    /// Enable debug logging.
    pub debug: bool,
}

impl GlobalArgs {
    /// The level to log at: debug where it was asked for, info otherwise.
    pub fn log_level(&self) -> (level: LogLevel)
        ensures
            level == (if self.debug {
                LogLevel::Debug
            } else {
                LogLevel::Info
            }),
    {
        if self.debug {
            LogLevel::Debug
        } else {
            LogLevel::Info
        }
    }

    /// Appends the arguments of the value to `args`.
    pub fn add_args(&self, args: &mut Vec<String>)
        ensures
            texts(final(args)@) == texts(old(args)@) + self.arg_texts(),
    {
        if self.debug {
            push_text(args, "--debug");
            assert(texts(old(args)@).push("--debug"@) =~= texts(old(args)@) + seq!["--debug"@]);
        } else {
            assert(texts(args@) =~= texts(old(args)@) + Seq::<Seq<char>>::empty());
        }
    }
}

impl Default for GlobalArgs {
    fn default() -> (r: Self)
        ensures
            !r.debug,
    {
        GlobalArgs { debug: false }
    }
}

impl ToArgs for GlobalArgs {
    open spec fn arg_texts(&self) -> Seq<Seq<char>> {
        if self.debug {
            seq!["--debug"@]
        } else {
            Seq::empty()
        }
    }

    fn to_args(&self) -> (args: Vec<String>) {
        let mut args: Vec<String> = Vec::new();
        assert(texts(args@) =~= Seq::empty());
        self.add_args(&mut args);
        assert(Seq::<Seq<char>>::empty() + self.arg_texts() =~= self.arg_texts());
        args
    }
}

} // verus!
