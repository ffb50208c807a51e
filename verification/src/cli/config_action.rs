//! The `config` command.

use vstd::prelude::*;
use crate::cli::command::Command;
use crate::cli::command::CommandView;
use crate::text::texts;
use crate::to_args::push_string;
use crate::to_args::push_text;
use crate::to_args::ToArgs;

verus! {

/// The name of a configuration value.
#[derive(Clone, Copy, Debug, PartialEq, Eq, Structural)]
pub enum ConfigKey {
    /// The directory that holds the cached dumps.
    CacheDir,
}

impl ConfigKey {
    /// The name as it is written on the command line.
    pub open spec fn name(self) -> Seq<char> {
        match self {
            ConfigKey::CacheDir => "cache-dir"@,
        }
    }

    /// The name as it is written on the command line.
    pub fn as_str(&self) -> (s: &'static str)
        ensures
            s@ == self.name(),
    {
        match self {
            ConfigKey::CacheDir => "cache-dir",
        }
    }
}

/// The path that `config set` stores where none is given: the current
/// directory.
pub open spec fn default_config_value() -> Seq<char> {
    "."@
}

/// What to do with the configuration.
#[derive(Debug)]
pub enum ConfigAction {
    /// Show all config values.
    Show,
    /// Get a config value by name.
    Get { key: ConfigKey },
    /// Set a config value by name.
    SetValue { key: ConfigKey, value: String },
}

impl ConfigAction {
    /// The request that the action stands for.
    pub open spec fn command(&self) -> CommandView {
        match self {
            ConfigAction::Show => CommandView::ConfigShow,
            ConfigAction::Get { key } => CommandView::ConfigGet { key: *key },
            ConfigAction::SetValue { key, value } => CommandView::ConfigSet { key: *key, value: value@ },
        }
    }

    /// Turns the action into the request to carry out.
    pub fn run(self) -> (c: Command)
        ensures
            c@ == self.command(),
    {
        match self {
            ConfigAction::Show => Command::ConfigShow,
            ConfigAction::Get { key } => Command::ConfigGet { key },
            ConfigAction::SetValue { key, value } => Command::ConfigSet { key, value },
        }
    }
}

impl ToArgs for ConfigAction {
    open spec fn arg_texts(&self) -> Seq<Seq<char>> {
        match self {
            ConfigAction::Show => seq!["show"@],
            ConfigAction::Get { key } => seq!["get"@, key.name()],
            ConfigAction::SetValue { key, value } => seq!["set"@, key.name(), value@],
        }
    }

    fn to_args(&self) -> (args: Vec<String>) {
        let mut args: Vec<String> = Vec::new();
        assert(texts(args@) =~= Seq::empty());
        match self {
            ConfigAction::Show => {
                push_text(&mut args, "show");
                assert(texts(args@) =~= seq!["show"@]);
            },
            ConfigAction::Get { key } => {
                push_text(&mut args, "get");
                push_text(&mut args, key.as_str());
                assert(texts(args@) =~= seq!["get"@, key.name()]);
            },
            ConfigAction::SetValue { key, value } => {
                push_text(&mut args, "set");
                push_text(&mut args, key.as_str());
                push_string(&mut args, value.clone());
                assert(texts(args@) =~= seq!["set"@, key.name(), value@]);
            },
        }
        args
    }
}

/// The arguments of the `config` command.
#[derive(Debug)]
pub struct ConfigArgs {
    pub action: ConfigAction,
}

impl ConfigArgs {
    /// Turns the arguments into the request to carry out.
    pub fn run(self) -> (c: Command)
        ensures
            c@ == self.action.command(),
    {
        self.action.run()
    }
}

impl ToArgs for ConfigArgs {
    open spec fn arg_texts(&self) -> Seq<Seq<char>> {
        self.action.arg_texts()
    }

    fn to_args(&self) -> (args: Vec<String>) {
        self.action.to_args()
    }
}

} // verus!
