//! Reading a command line from its arguments: an optional `--debug`, the
//! command, its action, and what the action takes.

use vstd::prelude::*;
use vstd::string::*;
use crate::cli::action::Action;
use crate::cli::command::optional_text;
use crate::cli::command::CommandView;
use crate::cli::config_action::default_config_value;
use crate::cli::config_action::ConfigAction;
use crate::cli::config_action::ConfigArgs;
use crate::cli::config_action::ConfigKey;
use crate::cli::drive_letter_pattern::wildcard;
use crate::cli::drive_letter_pattern::DriveLetterPattern;
use crate::cli::elevation_action::ElevationAction;
use crate::cli::elevation_action::ElevationArgs;
use crate::cli::elevation_check_action::ElevationCheckArgs;
use crate::cli::elevation_test_action::ElevationTestArgs;
use crate::cli::global_args::GlobalArgs;
use crate::cli::mft_action::MftAction;
use crate::cli::mft_action::MftArgs;
use crate::cli::mft_diff_action::MftDiffArgs;
use crate::cli::mft_dump_action::MftDumpArgs;
use crate::cli::mft_query_action::nanos_read;
use crate::cli::mft_query_action::parse_nanos;
use crate::cli::mft_query_action::MftQueryArgs;
use crate::cli::mft_query_action::DEFAULT_DISPLAY_INTERVAL;
use crate::cli::mft_query_action::DEFAULT_LIMIT;
use crate::cli::mft_query_action::DEFAULT_TOP;
use crate::cli::mft_query_action::is_moderate;
use crate::cli::mft_query_action::moderate;
use crate::cli::mft_show_action::MftShowArgs;
use crate::cli::mft_summarize_action::MftSummarizeArgs;
use crate::cli::mft_sync_action::MftSyncArgs;
use crate::cli::tokens::complete;
use crate::cli::tokens::parse_tokens;
use crate::cli::tokens::run;
use crate::cli::tokens::ParseState;
use crate::cli::tokens::Parsed;
use crate::cli::tokens::Schema;
use crate::cli::tokens::SchemaView;
use crate::cli::Cli;
use crate::cli::CliView;
use crate::text::number_of;
use crate::text::parse_number;
use crate::text::same_text;
use crate::text::texts;
use crate::to_args::push_text;

verus! {

/// Why arguments are no command line.
#[derive(Clone, Copy, Debug, PartialEq, Eq, Structural)]
pub enum ParseError {
    /// The arguments end before a command and its action are named.
    MissingCommand,
    /// The command or its action is not known.
    UnknownCommand,
    /// A flag is not known, comes twice or lacks its value, or there are
    /// more arguments than the action takes.
    BadArguments,
    /// The action takes more arguments than there are.
    MissingArgument,
    /// A value is no number, no span of time or no key where one is needed.
    InvalidValue,
}

/// The flags of `mft dump` and `mft sync`.
pub open spec fn overwrite_schema() -> SchemaView {
    SchemaView { switches: seq!["--overwrite-existing"@], valued: Seq::empty() }
}

/// The flags of `mft diff`.
pub open spec fn diff_schema() -> SchemaView {
    SchemaView { switches: seq!["--verbose"@], valued: seq!["--max-diffs"@] }
}

/// The flags of `mft show`. The number of threads has a short form.
pub open spec fn show_schema() -> SchemaView {
    SchemaView {
        switches: seq!["--verbose"@, "--show-paths"@],
        valued: seq!["--max-entries"@, "--threads"@, "-j"@],
    }
}

/// The flags of `mft summarize`.
pub open spec fn summarize_schema() -> SchemaView {
    SchemaView { switches: seq!["--verbose"@, "--show-paths"@], valued: seq!["--max-entries"@] }
}

/// The flags of `mft query`.
pub open spec fn query_schema() -> SchemaView {
    SchemaView {
        switches: Seq::empty(),
        valued: seq!["--drive-pattern"@, "--limit"@, "--display-interval"@, "--top"@],
    }
}

/// What is wrong with the number of positional arguments, or with the
/// flags.
pub open spec fn arity(s: ParseState, least: nat, most: nat) -> Option<ParseError> {
    if !complete(s) || s.positionals.len() > most {
        Some(ParseError::BadArguments)
    } else if s.positionals.len() < least {
        Some(ParseError::MissingArgument)
    } else {
        None
    }
}

/// The number that an optional value writes.
pub open spec fn count_of(value: Option<Seq<char>>) -> Result<Option<usize>, ParseError> {
    match value {
        None => Ok(None),
        Some(text) => match number_of(text) {
            Some(n) => if n <= usize::MAX {
                Ok(Some(n as usize))
            } else {
                Err(ParseError::InvalidValue)
            },
            None => Err(ParseError::InvalidValue),
        },
    }
}

/// The number that an optional value writes, or the default.
pub open spec fn count_or(value: Option<Seq<char>>, default: usize) -> Result<usize, ParseError> {
    match count_of(value) {
        Ok(Some(n)) => Ok(n),
        Ok(None) => Ok(default),
        Err(e) => Err(e),
    }
}

/// The span of time that an optional value writes, in nanoseconds, or the
/// default. A text with more or longer numbers than a span of time needs is
/// not read.
pub open spec fn interval_of(value: Option<Seq<char>>) -> Result<u64, ParseError> {
    match value {
        None => Ok(DEFAULT_DISPLAY_INTERVAL),
        Some(text) => if !moderate(text) {
            Err(ParseError::InvalidValue)
        } else {
            match nanos_read(text) {
                Some(nanos) => Ok(nanos),
                None => Err(ParseError::InvalidValue),
            }
        },
    }
}

/// The key that a text names.
pub open spec fn key_of(text: Seq<char>) -> Option<ConfigKey> {
    if text == "cache-dir"@ {
        Some(ConfigKey::CacheDir)
    } else {
        None
    }
}

/// `mft dump` takes the drives and the output path.
pub open spec fn dump_of(s: ParseState) -> Result<CommandView, ParseError> {
    match arity(s, 2, 2) {
        Some(e) => Err(e),
        None => Ok(
            CommandView::MftDump {
                drive_letters: s.positionals[0],
                output_path: s.positionals[1],
                overwrite_existing: s.switches[0],
            },
        ),
    }
}

/// `mft sync` takes the drives, or stands for all of them.
pub open spec fn sync_of(s: ParseState) -> Result<CommandView, ParseError> {
    match arity(s, 0, 1) {
        Some(e) => Err(e),
        None => Ok(
            CommandView::MftSync {
                drive_pattern: if s.positionals.len() == 1 {
                    s.positionals[0]
                } else {
                    wildcard()
                },
                overwrite_existing: s.switches[0],
            },
        ),
    }
}

/// `mft diff` takes two files.
pub open spec fn diff_of(s: ParseState) -> Result<CommandView, ParseError> {
    match arity(s, 2, 2) {
        Some(e) => Err(e),
        None => match count_of(s.values[0]) {
            Err(e) => Err(e),
            Ok(max_diffs) => Ok(
                CommandView::MftDiff {
                    file1: s.positionals[0],
                    file2: s.positionals[1],
                    verbose: s.switches[0],
                    max_diffs,
                },
            ),
        },
    }
}

/// The number of threads, under its long or its short name, not both.
pub open spec fn threads_value(s: ParseState) -> Option<Option<Seq<char>>> {
    if s.values[1] is Some && s.values[2] is Some {
        None
    } else if s.values[1] is Some {
        Some(s.values[1])
    } else {
        Some(s.values[2])
    }
}

/// `mft show` takes a pattern, or none.
pub open spec fn show_of(s: ParseState) -> Result<CommandView, ParseError> {
    match arity(s, 0, 1) {
        Some(e) => Err(e),
        None => match threads_value(s) {
            None => Err(ParseError::BadArguments),
            Some(threads) => match (count_of(s.values[0]), count_of(threads)) {
                (Ok(max_entries), Ok(threads)) => Ok(
                    CommandView::MftShow {
                        mft_pattern: if s.positionals.len() == 1 {
                            Some(s.positionals[0])
                        } else {
                            None
                        },
                        verbose: s.switches[0],
                        show_paths: s.switches[1],
                        max_entries,
                        threads,
                    },
                ),
                _ => Err(ParseError::InvalidValue),
            },
        },
    }
}

/// `mft summarize` takes one file.
pub open spec fn summarize_of(s: ParseState) -> Result<CommandView, ParseError> {
    match arity(s, 1, 1) {
        Some(e) => Err(e),
        None => match count_of(s.values[0]) {
            Err(e) => Err(e),
            Ok(max_entries) => Ok(
                CommandView::MftSummarize {
                    mft_file: s.positionals[0],
                    verbose: s.switches[0],
                    show_paths: s.switches[1],
                    max_entries,
                },
            ),
        },
    }
}

/// `mft query` takes the query.
pub open spec fn query_of(s: ParseState) -> Result<CommandView, ParseError> {
    match arity(s, 1, 1) {
        Some(e) => Err(e),
        None => match (
            count_or(s.values[1], DEFAULT_LIMIT),
            interval_of(s.values[2]),
            count_or(s.values[3], DEFAULT_TOP),
        ) {
            (Ok(limit), Ok(display_interval), Ok(top_n)) => Ok(
                CommandView::MftQuery {
                    drive_pattern: match s.values[0] {
                        Some(pattern) => pattern,
                        None => wildcard(),
                    },
                    query: s.positionals[0],
                    limit,
                    display_interval,
                    top_n,
                },
            ),
            _ => Err(ParseError::InvalidValue),
        },
    }
}

/// The actions of `mft`.
pub open spec fn mft_of(name: Seq<char>, rest: Seq<Seq<char>>) -> Result<CommandView, ParseError> {
    if name == "dump"@ {
        dump_of(run(overwrite_schema(), rest))
    } else if name == "sync"@ {
        sync_of(run(overwrite_schema(), rest))
    } else if name == "diff"@ {
        diff_of(run(diff_schema(), rest))
    } else if name == "show"@ {
        show_of(run(show_schema(), rest))
    } else if name == "query"@ {
        query_of(run(query_schema(), rest))
    } else if name == "summarize"@ {
        summarize_of(run(summarize_schema(), rest))
    } else {
        Err(ParseError::UnknownCommand)
    }
}

/// The actions of `elevation`: neither takes anything.
pub open spec fn elevation_of(name: Seq<char>, rest: Seq<Seq<char>>) -> Result<
    CommandView,
    ParseError,
> {
    if name != "check"@ && name != "test"@ {
        Err(ParseError::UnknownCommand)
    } else if rest.len() > 0 {
        Err(ParseError::BadArguments)
    } else if name == "check"@ {
        Ok(CommandView::ElevationCheck)
    } else {
        Ok(CommandView::ElevationTest)
    }
}

/// The actions of `config`: `show` takes nothing, `get` a key, `set` a key
/// and a value, which is the current directory where none is given.
pub open spec fn config_of(name: Seq<char>, rest: Seq<Seq<char>>) -> Result<
    CommandView,
    ParseError,
> {
    if name == "show"@ {
        if rest.len() > 0 {
            Err(ParseError::BadArguments)
        } else {
            Ok(CommandView::ConfigShow)
        }
    } else if name == "get"@ || name == "set"@ {
        let most: nat = if name == "get"@ {
            1
        } else {
            2
        };
        if rest.len() > most {
            Err(ParseError::BadArguments)
        } else if rest.len() == 0 {
            Err(ParseError::MissingArgument)
        } else {
            match key_of(rest[0]) {
                None => Err(ParseError::InvalidValue),
                Some(key) => if name == "get"@ {
                    Ok(CommandView::ConfigGet { key })
                } else {
                    Ok(
                        CommandView::ConfigSet {
                            key,
                            value: if rest.len() == 2 {
                                rest[1]
                            } else {
                                default_config_value()
                            },
                        },
                    )
                },
            }
        }
    } else {
        Err(ParseError::UnknownCommand)
    }
}

/// What a command, its action and the arguments behind them ask for.
pub open spec fn command_of(command: Seq<char>, name: Seq<char>, rest: Seq<Seq<char>>) -> Result<
    CommandView,
    ParseError,
> {
    if command == "mft"@ {
        mft_of(name, rest)
    } else if command == "elevation"@ {
        elevation_of(name, rest)
    } else if command == "config"@ {
        config_of(name, rest)
    } else {
        Err(ParseError::UnknownCommand)
    }
}

/// The command line that arguments write: `--debug` may come first, then
/// the command and its action, then what the action takes.
pub open spec fn parsed(args: Seq<Seq<char>>) -> Result<CliView, ParseError> {
    let debug = args.len() > 0 && args[0] == "--debug"@;
    let rest = if debug {
        args.skip(1)
    } else {
        args
    };
    if rest.len() < 2 {
        Err(ParseError::MissingCommand)
    } else {
        match command_of(rest[0], rest[1], rest.skip(2)) {
            Ok(request) => Ok(CliView { debug, request }),
            Err(e) => Err(e),
        }
    }
}

/// The arguments of a program: what follows its own name.
pub open spec fn arguments(argv: Seq<Seq<char>>) -> Seq<Seq<char>> {
    if argv.len() == 0 {
        argv
    } else {
        argv.skip(1)
    }
}

fn overwrite_flags() -> (s: Schema)
    ensures
        s@ == overwrite_schema(),
{
    let mut switches: Vec<String> = Vec::new();
    let valued: Vec<String> = Vec::new();
    assert(texts(valued@) =~= Seq::empty());
    assert(texts(switches@) =~= Seq::empty());
    push_text(&mut switches, "--overwrite-existing");
    assert(texts(switches@) =~= seq!["--overwrite-existing"@]);
    Schema { switches, valued }
}

fn diff_flags() -> (s: Schema)
    ensures
        s@ == diff_schema(),
{
    let mut switches: Vec<String> = Vec::new();
    let mut valued: Vec<String> = Vec::new();
    assert(texts(valued@) =~= Seq::empty());
    assert(texts(switches@) =~= Seq::empty());
    push_text(&mut switches, "--verbose");
    push_text(&mut valued, "--max-diffs");
    assert(texts(switches@) =~= seq!["--verbose"@]);
    assert(texts(valued@) =~= seq!["--max-diffs"@]);
    Schema { switches, valued }
}

fn show_flags() -> (s: Schema)
    ensures
        s@ == show_schema(),
{
    let mut switches: Vec<String> = Vec::new();
    let mut valued: Vec<String> = Vec::new();
    assert(texts(valued@) =~= Seq::empty());
    assert(texts(switches@) =~= Seq::empty());
    push_text(&mut switches, "--verbose");
    push_text(&mut switches, "--show-paths");
    push_text(&mut valued, "--max-entries");
    push_text(&mut valued, "--threads");
    push_text(&mut valued, "-j");
    assert(texts(switches@) =~= seq!["--verbose"@, "--show-paths"@]);
    assert(texts(valued@) =~= seq!["--max-entries"@, "--threads"@, "-j"@]);
    Schema { switches, valued }
}

fn summarize_flags() -> (s: Schema)
    ensures
        s@ == summarize_schema(),
{
    let mut switches: Vec<String> = Vec::new();
    let mut valued: Vec<String> = Vec::new();
    assert(texts(valued@) =~= Seq::empty());
    assert(texts(switches@) =~= Seq::empty());
    push_text(&mut switches, "--verbose");
    push_text(&mut switches, "--show-paths");
    push_text(&mut valued, "--max-entries");
    assert(texts(switches@) =~= seq!["--verbose"@, "--show-paths"@]);
    assert(texts(valued@) =~= seq!["--max-entries"@]);
    Schema { switches, valued }
}

fn query_flags() -> (s: Schema)
    ensures
        s@ == query_schema(),
{
    let switches: Vec<String> = Vec::new();
    let mut valued: Vec<String> = Vec::new();
    assert(texts(valued@) =~= Seq::empty());
    assert(texts(switches@) =~= Seq::empty());
    push_text(&mut valued, "--drive-pattern");
    push_text(&mut valued, "--limit");
    push_text(&mut valued, "--display-interval");
    push_text(&mut valued, "--top");
    assert(texts(valued@) =~= seq![
        "--drive-pattern"@,
        "--limit"@,
        "--display-interval"@,
        "--top"@,
    ]);
    Schema { switches, valued }
}

fn check_arity(p: &Parsed, least: usize, most: usize) -> (r: Option<ParseError>)
    ensures
        r == arity(p.state(), least as nat, most as nat),
{
    if p.positionals.len() > most {
        Some(ParseError::BadArguments)
    } else if p.positionals.len() < least {
        Some(ParseError::MissingArgument)
    } else {
        None
    }
}

fn read_count(value: &Option<String>) -> (r: Result<Option<usize>, ParseError>)
    ensures
        r == count_of(optional_text(*value)),
{
    match value {
        None => Ok(None),
        Some(text) => match parse_number(text.as_str()) {
            Some(n) => Ok(Some(n)),
            None => Err(ParseError::InvalidValue),
        },
    }
}

fn read_count_or(value: &Option<String>, default: usize) -> (r: Result<usize, ParseError>)
    ensures
        r == count_or(optional_text(*value), default),
{
    match read_count(value) {
        Ok(Some(n)) => Ok(n),
        Ok(None) => Ok(default),
        Err(e) => Err(e),
    }
}

fn read_interval(value: &Option<String>) -> (r: Result<u64, ParseError>)
    ensures
        r == interval_of(optional_text(*value)),
{
    match value {
        None => Ok(DEFAULT_DISPLAY_INTERVAL),
        Some(text) => {
            if !is_moderate(text.as_str()) {
                return Err(ParseError::InvalidValue);
            }
            match parse_nanos(text.as_str()) {
                Some(millis) => Ok(millis),
                None => Err(ParseError::InvalidValue),
            }
        },
    }
}

fn read_key(text: &str) -> (r: Option<ConfigKey>)
    ensures
        r == key_of(text@),
{
    if same_text(text, "cache-dir") {
        Some(ConfigKey::CacheDir)
    } else {
        None
    }
}

fn read_dump(tokens: &Vec<String>, from: usize) -> (r: Result<MftDumpArgs, ParseError>)
    requires
        from <= tokens@.len(),
    ensures
        match dump_of(run(overwrite_schema(), texts(tokens@).skip(from as int))) {
            Ok(c) => r is Ok && r->Ok_0.command() == c,
            Err(e) => r is Err && r->Err_0 == e,
        },
{
    let schema = overwrite_flags();
    let p = match parse_tokens(&schema, tokens, from) {
        Some(p) => p,
        None => {
            return Err(ParseError::BadArguments);
        },
    };
    match check_arity(&p, 2, 2) {
        Some(e) => {
            return Err(e);
        },
        None => {},
    }
    Ok(
        MftDumpArgs {
            drive_letters: DriveLetterPattern::new(p.positionals[0].clone()),
            output_path: p.positionals[1].clone(),
            overwrite_existing: p.switches[0],
        },
    )
}

fn read_sync(tokens: &Vec<String>, from: usize) -> (r: Result<MftSyncArgs, ParseError>)
    requires
        from <= tokens@.len(),
    ensures
        match sync_of(run(overwrite_schema(), texts(tokens@).skip(from as int))) {
            Ok(c) => r is Ok && r->Ok_0.command() == c,
            Err(e) => r is Err && r->Err_0 == e,
        },
{
    let schema = overwrite_flags();
    let p = match parse_tokens(&schema, tokens, from) {
        Some(p) => p,
        None => {
            return Err(ParseError::BadArguments);
        },
    };
    match check_arity(&p, 0, 1) {
        Some(e) => {
            return Err(e);
        },
        None => {},
    }
    let drive_pattern = if p.positionals.len() == 1 {
        DriveLetterPattern::new(p.positionals[0].clone())
    } else {
        DriveLetterPattern::all()
    };
    Ok(MftSyncArgs { drive_pattern, overwrite_existing: p.switches[0] })
}

fn read_diff(tokens: &Vec<String>, from: usize) -> (r: Result<MftDiffArgs, ParseError>)
    requires
        from <= tokens@.len(),
    ensures
        match diff_of(run(diff_schema(), texts(tokens@).skip(from as int))) {
            Ok(c) => r is Ok && r->Ok_0.command() == c,
            Err(e) => r is Err && r->Err_0 == e,
        },
{
    let schema = diff_flags();
    let p = match parse_tokens(&schema, tokens, from) {
        Some(p) => p,
        None => {
            return Err(ParseError::BadArguments);
        },
    };
    match check_arity(&p, 2, 2) {
        Some(e) => {
            return Err(e);
        },
        None => {},
    }
    let max_diffs = match read_count(&p.values[0]) {
        Ok(n) => n,
        Err(e) => {
            return Err(e);
        },
    };
    Ok(
        MftDiffArgs {
            file1: p.positionals[0].clone(),
            file2: p.positionals[1].clone(),
            verbose: p.switches[0],
            max_diffs,
        },
    )
}

fn read_show(tokens: &Vec<String>, from: usize) -> (r: Result<MftShowArgs, ParseError>)
    requires
        from <= tokens@.len(),
    ensures
        match show_of(run(show_schema(), texts(tokens@).skip(from as int))) {
            Ok(c) => r is Ok && r->Ok_0.command() == c,
            Err(e) => r is Err && r->Err_0 == e,
        },
{
    let schema = show_flags();
    let p = match parse_tokens(&schema, tokens, from) {
        Some(p) => p,
        None => {
            return Err(ParseError::BadArguments);
        },
    };
    match check_arity(&p, 0, 1) {
        Some(e) => {
            return Err(e);
        },
        None => {},
    }
    if p.values[1].is_some() && p.values[2].is_some() {
        return Err(ParseError::BadArguments);
    }
    let max_entries = read_count(&p.values[0]);
    let threads = if p.values[1].is_some() {
        read_count(&p.values[1])
    } else {
        read_count(&p.values[2])
    };
    match (max_entries, threads) {
        (Ok(max_entries), Ok(threads)) => {
            let mft_pattern = if p.positionals.len() == 1 {
                Some(p.positionals[0].clone())
            } else {
                None
            };
            Ok(
                MftShowArgs {
                    mft_pattern,
                    verbose: p.switches[0],
                    show_paths: p.switches[1],
                    max_entries,
                    threads,
                },
            )
        },
        _ => Err(ParseError::InvalidValue),
    }
}

fn read_summarize(tokens: &Vec<String>, from: usize) -> (r: Result<MftSummarizeArgs, ParseError>)
    requires
        from <= tokens@.len(),
    ensures
        match summarize_of(run(summarize_schema(), texts(tokens@).skip(from as int))) {
            Ok(c) => r is Ok && r->Ok_0.command() == c,
            Err(e) => r is Err && r->Err_0 == e,
        },
{
    let schema = summarize_flags();
    let p = match parse_tokens(&schema, tokens, from) {
        Some(p) => p,
        None => {
            return Err(ParseError::BadArguments);
        },
    };
    match check_arity(&p, 1, 1) {
        Some(e) => {
            return Err(e);
        },
        None => {},
    }
    let max_entries = match read_count(&p.values[0]) {
        Ok(n) => n,
        Err(e) => {
            return Err(e);
        },
    };
    Ok(
        MftSummarizeArgs {
            mft_file: p.positionals[0].clone(),
            verbose: p.switches[0],
            show_paths: p.switches[1],
            max_entries,
        },
    )
}

fn read_query(tokens: &Vec<String>, from: usize) -> (r: Result<MftQueryArgs, ParseError>)
    requires
        from <= tokens@.len(),
    ensures
        match query_of(run(query_schema(), texts(tokens@).skip(from as int))) {
            Ok(c) => r is Ok && r->Ok_0.request() == c,
            Err(e) => r is Err && r->Err_0 == e,
        },
{
    let schema = query_flags();
    let p = match parse_tokens(&schema, tokens, from) {
        Some(p) => p,
        None => {
            return Err(ParseError::BadArguments);
        },
    };
    match check_arity(&p, 1, 1) {
        Some(e) => {
            return Err(e);
        },
        None => {},
    }
    let limit = read_count_or(&p.values[1], DEFAULT_LIMIT);
    let display_interval = read_interval(&p.values[2]);
    let top_n = read_count_or(&p.values[3], DEFAULT_TOP);
    match (limit, display_interval, top_n) {
        (Ok(limit), Ok(display_interval), Ok(top_n)) => {
            let drive_pattern = match &p.values[0] {
                Some(pattern) => DriveLetterPattern::new(pattern.clone()),
                None => DriveLetterPattern::all(),
            };
            Ok(
                MftQueryArgs {
                    drive_pattern,
                    query: p.positionals[0].clone(),
                    limit,
                    display_interval,
                    top_n,
                },
            )
        },
        _ => Err(ParseError::InvalidValue),
    }
}

fn read_mft(tokens: &Vec<String>, at: usize) -> (r: Result<MftAction, ParseError>)
    requires
        at < tokens@.len(),
    ensures
        match mft_of(texts(tokens@)[at as int], texts(tokens@).skip(at + 1)) {
            Ok(c) => r is Ok && r->Ok_0.request() == c,
            Err(e) => r is Err && r->Err_0 == e,
        },
{
    let count = tokens.len();
    assert(at < count);
    let name = tokens[at].as_str();
    if same_text(name, "dump") {
        match read_dump(tokens, at + 1) {
            Ok(args) => Ok(MftAction::Dump(args)),
            Err(e) => Err(e),
        }
    } else if same_text(name, "sync") {
        match read_sync(tokens, at + 1) {
            Ok(args) => Ok(MftAction::Sync(args)),
            Err(e) => Err(e),
        }
    } else if same_text(name, "diff") {
        match read_diff(tokens, at + 1) {
            Ok(args) => Ok(MftAction::Diff(args)),
            Err(e) => Err(e),
        }
    } else if same_text(name, "show") {
        match read_show(tokens, at + 1) {
            Ok(args) => Ok(MftAction::Show(args)),
            Err(e) => Err(e),
        }
    } else if same_text(name, "query") {
        match read_query(tokens, at + 1) {
            Ok(args) => Ok(MftAction::Query(args)),
            Err(e) => Err(e),
        }
    } else if same_text(name, "summarize") {
        match read_summarize(tokens, at + 1) {
            Ok(args) => Ok(MftAction::Summarize(args)),
            Err(e) => Err(e),
        }
    } else {
        Err(ParseError::UnknownCommand)
    }
}

fn read_elevation(tokens: &Vec<String>, at: usize) -> (r: Result<ElevationAction, ParseError>)
    requires
        at < tokens@.len(),
    ensures
        match elevation_of(texts(tokens@)[at as int], texts(tokens@).skip(at + 1)) {
            Ok(c) => r is Ok && r->Ok_0.command() == c,
            Err(e) => r is Err && r->Err_0 == e,
        },
{
    let name = tokens[at].as_str();
    let check = same_text(name, "check");
    if !check && !same_text(name, "test") {
        Err(ParseError::UnknownCommand)
    } else if tokens.len() - at > 1 {
        Err(ParseError::BadArguments)
    } else if check {
        Ok(ElevationAction::Check(ElevationCheckArgs {  }))
    } else {
        Ok(ElevationAction::Test(ElevationTestArgs {  }))
    }
}

fn read_config(tokens: &Vec<String>, at: usize) -> (r: Result<ConfigAction, ParseError>)
    requires
        at < tokens@.len(),
    ensures
        match config_of(texts(tokens@)[at as int], texts(tokens@).skip(at + 1)) {
            Ok(c) => r is Ok && r->Ok_0.command() == c,
            Err(e) => r is Err && r->Err_0 == e,
        },
{
    let name = tokens[at].as_str();
    let ghost rest = texts(tokens@).skip(at + 1);
    let given = tokens.len() - at - 1;
    if same_text(name, "show") {
        if given > 0 {
            Err(ParseError::BadArguments)
        } else {
            Ok(ConfigAction::Show)
        }
    } else {
        let get = same_text(name, "get");
        if !get && !same_text(name, "set") {
            return Err(ParseError::UnknownCommand);
        }
        let most: usize = if get {
            1
        } else {
            2
        };
        if given > most {
            return Err(ParseError::BadArguments);
        }
        if given == 0 {
            return Err(ParseError::MissingArgument);
        }
        assert(rest[0] == tokens@[at + 1]@);
        match read_key(tokens[at + 1].as_str()) {
            None => Err(ParseError::InvalidValue),
            Some(key) => {
                if get {
                    Ok(ConfigAction::Get { key })
                } else if given == 2 {
                    assert(rest[1] == tokens@[at + 2]@);
                    Ok(ConfigAction::SetValue { key, value: tokens[at + 2].clone() })
                } else {
                    Ok(ConfigAction::SetValue { key, value: String::from_str(".") })
                }
            },
        }
    }
}

fn read_action(tokens: &Vec<String>, at: usize) -> (r: Result<Action, ParseError>)
    requires
        at + 2 <= tokens@.len(),
    ensures
        match command_of(
            texts(tokens@)[at as int],
            texts(tokens@)[at + 1],
            texts(tokens@).skip(at + 2),
        ) {
            Ok(c) => r is Ok && r->Ok_0.request() == c,
            Err(e) => r is Err && r->Err_0 == e,
        },
{
    let count = tokens.len();
    assert(at + 2 <= count);
    let command = tokens[at].as_str();
    if same_text(command, "mft") {
        match read_mft(tokens, at + 1) {
            Ok(action) => Ok(Action::Mft(MftArgs { action })),
            Err(e) => Err(e),
        }
    } else if same_text(command, "elevation") {
        match read_elevation(tokens, at + 1) {
            Ok(action) => Ok(Action::Elevation(ElevationArgs { action })),
            Err(e) => Err(e),
        }
    } else if same_text(command, "config") {
        match read_config(tokens, at + 1) {
            Ok(action) => Ok(Action::Config(ConfigArgs { action })),
            Err(e) => Err(e),
        }
    } else {
        Err(ParseError::UnknownCommand)
    }
}

impl Cli {
    /// Reads a command line from the arguments that a program was started
    /// with, its own name first.
    pub fn try_parse_from(argv: &Vec<String>) -> (r: Result<Cli, ParseError>)
        ensures
            match parsed(arguments(texts(argv@))) {
                Ok(cli) => r is Ok && r->Ok_0@ == cli,
                Err(e) => r is Err && r->Err_0 == e,
            },
    {
        let start: usize = if argv.len() == 0 {
            0
        } else {
            1
        };
        let ghost args = arguments(texts(argv@));
        assert(args =~= texts(argv@).skip(start as int));
        let debug = start < argv.len() && same_text(argv[start].as_str(), "--debug");
        let at: usize = if debug {
            start + 1
        } else {
            start
        };
        let ghost rest = if debug {
            args.skip(1)
        } else {
            args
        };
        assert(rest =~= texts(argv@).skip(at as int));
        if argv.len() - at < 2 {
            return Err(ParseError::MissingCommand);
        }
        assert(rest.skip(2) =~= texts(argv@).skip(at + 2));
        match read_action(argv, at) {
            Ok(action) => Ok(Cli { global_args: GlobalArgs { debug }, action }),
            Err(e) => Err(e),
        }
    }
}

} // verus!
