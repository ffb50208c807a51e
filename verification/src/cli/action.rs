//! The commands of the program.

use vstd::prelude::*;
use crate::cli::command::Command;
use crate::cli::command::CommandView;
use crate::cli::config_action::ConfigArgs;
use crate::cli::elevation_action::ElevationArgs;
use crate::cli::error::CliError;
use crate::cli::mft_action::MftArgs;
use crate::text::texts;
use crate::to_args::push_all;
use crate::to_args::push_text;
use crate::to_args::ToArgs;

verus! {

/// Main application commands.
#[derive(Debug)]
pub enum Action {
    /// NTFS Master File Table operations.
    Mft(MftArgs),
    /// Administrative privilege elevation utilities.
    Elevation(ElevationArgs),
    /// Configuration of the cache directory.
    Config(ConfigArgs),
}

impl Action {
    /// The request that the action stands for.
    pub open spec fn command(&self) -> Result<CommandView, CliError> {
        match self {
            Action::Mft(args) => args.action.command(),
            Action::Elevation(args) => Ok(args.action.command()),
            Action::Config(args) => Ok(args.action.command()),
        }
    }

    /// The request as it was written: what the action asks for, whether or
    /// not it can be carried out.
    pub open spec fn request(&self) -> CommandView {
        match self {
            Action::Mft(args) => args.action.request(),
            Action::Elevation(args) => args.action.command(),
            Action::Config(args) => args.action.command(),
        }
    }

    /// Whether the span of time of a search is read back from what is
    /// written of it. Nothing is asked of the other actions.
    pub open spec fn interval_reads_back(&self) -> bool {
        match self {
            Action::Mft(args) => args.action.interval_reads_back(),
            _ => true,
        }
    }

    /// Turns the action into the request to carry out.
    pub fn run(self) -> (r: Result<Command, CliError>)
        ensures
            match self.command() {
                Ok(c) => r is Ok && r->Ok_0@ == c,
                Err(e) => r is Err && r->Err_0 == e,
            },
    {
        match self {
            Action::Mft(args) => args.run(),
            Action::Elevation(args) => Ok(args.run()),
            Action::Config(args) => Ok(args.run()),
        }
    }
}

impl ToArgs for Action {
    open spec fn arg_texts(&self) -> Seq<Seq<char>> {
        match self {
            Action::Mft(args) => seq!["mft"@] + args.arg_texts(),
            Action::Elevation(args) => seq!["elevation"@] + args.arg_texts(),
            Action::Config(args) => seq!["config"@] + args.arg_texts(),
        }
    }

    fn to_args(&self) -> (args: Vec<String>)
        ensures
            self.interval_reads_back(),
    {
        let mut args: Vec<String> = Vec::new();
        assert(texts(args@) =~= Seq::empty());
        match self {
            Action::Mft(inner) => {
                push_text(&mut args, "mft");
                assert(texts(args@) =~= seq!["mft"@]);
                push_all(&mut args, inner.to_args());
            },
            Action::Elevation(inner) => {
                push_text(&mut args, "elevation");
                assert(texts(args@) =~= seq!["elevation"@]);
                push_all(&mut args, inner.to_args());
            },
            Action::Config(inner) => {
                push_text(&mut args, "config");
                assert(texts(args@) =~= seq!["config"@]);
                push_all(&mut args, inner.to_args());
            },
        }
        args
    }
}

} // verus!
