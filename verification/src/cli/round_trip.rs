//! What is written as arguments is read back as it was.

use vstd::prelude::*;
use vstd::string::*;
use crate::cli::action::Action;
use crate::cli::config_action::ConfigAction;
use crate::cli::elevation_action::ElevationAction;
use crate::cli::global_args::GlobalArgs;
use crate::cli::mft_action::MftAction;
use crate::cli::mft_diff_action::with_flag;
use crate::cli::mft_diff_action::with_number;
use crate::cli::mft_diff_action::MftDiffArgs;
use crate::cli::mft_dump_action::MftDumpArgs;
use crate::cli::mft_query_action::humantime_text;
use crate::cli::mft_query_action::MftQueryArgs;
use crate::cli::mft_query_action::DEFAULT_DISPLAY_INTERVAL;
use crate::cli::mft_query_action::DEFAULT_LIMIT;
use crate::cli::mft_query_action::DEFAULT_TOP;
use crate::cli::mft_show_action::MftShowArgs;
use crate::cli::mft_summarize_action::MftSummarizeArgs;
use crate::cli::mft_sync_action::MftSyncArgs;
use crate::cli::command::CommandView;
use crate::cli::parse::command_of;
use crate::cli::parse::diff_of;
use crate::cli::parse::diff_schema;
use crate::cli::parse::dump_of;
use crate::cli::parse::overwrite_schema;
use crate::cli::parse::parsed;
use crate::cli::parse::query_of;
use crate::cli::parse::query_schema;
use crate::cli::parse::show_of;
use crate::cli::parse::show_schema;
use crate::cli::parse::summarize_of;
use crate::cli::parse::summarize_schema;
use crate::cli::parse::sync_of;
use crate::cli::parse::ParseError;
use crate::cli::tokens::flag_like;
use crate::cli::tokens::initial;
use crate::cli::tokens::run;
use crate::cli::tokens::run_of_nothing;
use crate::cli::tokens::run_push_positional;
use crate::cli::tokens::run_push_valued;
use crate::cli::tokens::run_with_flag;
use crate::cli::tokens::run_with_number;
use crate::cli::tokens::schema_wf;
use crate::cli::tokens::ParseState;
use crate::cli::tokens::SchemaView;
use crate::cli::Cli;
use crate::cli::CliView;
use crate::text::decimal;
use crate::text::number_of_decimal;
use crate::to_args::ToArgs;

verus! {

/// The flags of each action can be told apart.
pub proof fn schemas_are_sound()
    ensures
        schema_wf(overwrite_schema()),
        schema_wf(diff_schema()),
        schema_wf(show_schema()),
        schema_wf(summarize_schema()),
        schema_wf(query_schema()),
{
    reveal_strlit("--overwrite-existing");
    reveal_strlit("--verbose");
    reveal_strlit("--show-paths");
    reveal_strlit("--max-diffs");
    reveal_strlit("--max-entries");
    reveal_strlit("--threads");
    reveal_strlit("-j");
    reveal_strlit("--drive-pattern");
    reveal_strlit("--limit");
    reveal_strlit("--display-interval");
    reveal_strlit("--top");
    assert("--verbose"@[2] != "--threads"@[2]);
    let show = show_schema();
    assert(flag_like(show.switches[0]) && flag_like(show.switches[1]));
    assert(flag_like(show.valued[0]) && flag_like(show.valued[1]) && flag_like(show.valued[2]));
    assert(show.switches[0].len() == 9 && show.switches[1].len() == 12);
    assert(show.valued[0].len() == 13 && show.valued[1].len() == 9 && show.valued[2].len() == 2);
    assert(show.switches[0] != show.valued[1]);
    let summarize = summarize_schema();
    assert(flag_like(summarize.switches[0]) && flag_like(summarize.switches[1]));
    assert(flag_like(summarize.valued[0]));
    assert(summarize.switches[0].len() == 9 && summarize.switches[1].len() == 12);
    assert(summarize.valued[0].len() == 13);
    let query = query_schema();
    assert(flag_like(query.valued[0]) && flag_like(query.valued[1]) && flag_like(query.valued[2])
        && flag_like(query.valued[3]));
    assert(query.valued[0].len() == 15 && query.valued[1].len() == 7 && query.valued[2].len() == 18
        && query.valued[3].len() == 5);
}

/// One positional argument, read by itself.
proof fn run_of_one(schema: SchemaView, a: Seq<char>)
    requires
        schema_wf(schema),
        !flag_like(a),
    ensures
        run(schema, seq![a]) == (ParseState { positionals: seq![a], ..initial(schema) }),
{
    run_of_nothing(schema);
    run_push_positional(schema, Seq::empty(), a);
    assert(Seq::<Seq<char>>::empty().push(a) =~= seq![a]);
}

/// Two positional arguments, read by themselves.
proof fn run_of_two(schema: SchemaView, a: Seq<char>, b: Seq<char>)
    requires
        schema_wf(schema),
        !flag_like(a),
        !flag_like(b),
    ensures
        run(schema, seq![a, b]) == (ParseState { positionals: seq![a, b], ..initial(schema) }),
{
    run_of_one(schema, a);
    run_push_positional(schema, seq![a], b);
    assert(seq![a].push(b) =~= seq![a, b]);
}

/// `mft dump` reads its own arguments back.
pub proof fn dump_reads_back(args: MftDumpArgs)
    requires
        !flag_like(args.drive_letters.text()),
        !flag_like(args.output_path@),
    ensures
        dump_of(run(overwrite_schema(), args.arg_texts())) == Ok::<CommandView, ParseError>(args.command()),
{
    let schema = overwrite_schema();
    schemas_are_sound();
    let head = seq![args.drive_letters.text(), args.output_path@];
    run_of_two(schema, args.drive_letters.text(), args.output_path@);
    run_with_flag(schema, head, 0, args.overwrite_existing);
    assert(args.arg_texts() == with_flag(head, schema.switches[0], args.overwrite_existing));
}

/// `mft sync` reads its own arguments back.
pub proof fn sync_reads_back(args: MftSyncArgs)
    requires
        !flag_like(args.drive_pattern.text()),
    ensures
        sync_of(run(overwrite_schema(), args.arg_texts())) == Ok::<CommandView, ParseError>(
            args.command(),
        ),
{
    let schema = overwrite_schema();
    schemas_are_sound();
    let head = seq![args.drive_pattern.text()];
    run_of_one(schema, args.drive_pattern.text());
    run_with_flag(schema, head, 0, args.overwrite_existing);
    assert(args.arg_texts() == with_flag(head, schema.switches[0], args.overwrite_existing));
}

/// `mft diff` reads its own arguments back.
pub proof fn diff_reads_back(args: MftDiffArgs)
    requires
        !flag_like(args.file1@),
        !flag_like(args.file2@),
    ensures
        diff_of(run(diff_schema(), args.arg_texts())) == Ok::<CommandView, ParseError>(
            args.command(),
        ),
{
    let schema = diff_schema();
    schemas_are_sound();
    let head = seq![args.file1@, args.file2@];
    run_of_two(schema, args.file1@, args.file2@);
    run_with_flag(schema, head, 0, args.verbose);
    let flagged = with_flag(head, schema.switches[0], args.verbose);
    run_with_number(schema, flagged, 0, args.max_diffs);
    assert(args.arg_texts() == with_number(flagged, schema.valued[0], args.max_diffs));
    if args.max_diffs is Some {
        number_of_decimal(args.max_diffs->0 as nat);
    }
}

/// `mft show` reads its own arguments back.
pub proof fn show_reads_back(args: MftShowArgs)
    requires
        args.mft_pattern is Some ==> !flag_like(args.mft_pattern->0@),
    ensures
        show_of(run(show_schema(), args.arg_texts())) == Ok::<CommandView, ParseError>(
            args.command(),
        ),
{
    let schema = show_schema();
    schemas_are_sound();
    let head = match args.mft_pattern {
        Some(p) => seq![p@],
        None => Seq::empty(),
    };
    match args.mft_pattern {
        Some(p) => {
            run_of_one(schema, p@);
        },
        None => {
            run_of_nothing(schema);
        },
    }
    run_with_flag(schema, head, 0, args.verbose);
    let first = with_flag(head, schema.switches[0], args.verbose);
    run_with_flag(schema, first, 1, args.show_paths);
    let second = with_flag(first, schema.switches[1], args.show_paths);
    run_with_number(schema, second, 0, args.max_entries);
    let third = with_number(second, schema.valued[0], args.max_entries);
    run_with_number(schema, third, 1, args.threads);
    assert(args.arg_texts() == with_number(third, schema.valued[1], args.threads));
    if args.max_entries is Some {
        number_of_decimal(args.max_entries->0 as nat);
    }
    if args.threads is Some {
        number_of_decimal(args.threads->0 as nat);
    }
}

/// `mft summarize` reads its own arguments back.
pub proof fn summarize_reads_back(args: MftSummarizeArgs)
    requires
        !flag_like(args.mft_file@),
    ensures
        summarize_of(run(summarize_schema(), args.arg_texts())) == Ok::<CommandView, ParseError>(
            args.command(),
        ),
{
    let schema = summarize_schema();
    schemas_are_sound();
    let head = seq![args.mft_file@];
    run_of_one(schema, args.mft_file@);
    run_with_flag(schema, head, 0, args.verbose);
    let first = with_flag(head, schema.switches[0], args.verbose);
    run_with_flag(schema, first, 1, args.show_paths);
    let second = with_flag(first, schema.switches[1], args.show_paths);
    run_with_number(schema, second, 0, args.max_entries);
    assert(args.arg_texts() == with_number(second, schema.valued[0], args.max_entries));
    if args.max_entries is Some {
        number_of_decimal(args.max_entries->0 as nat);
    }
}

/// `mft query` reads its own arguments back, where the span of time that
/// it writes is read back.
pub proof fn query_reads_back(args: MftQueryArgs)
    requires
        !flag_like(args.query@),
        args.display_interval != DEFAULT_DISPLAY_INTERVAL ==> args.interval_reads_back(),
    ensures
        query_of(run(query_schema(), args.arg_texts())) == Ok::<CommandView, ParseError>(
            args.request(),
        ),
{
    let schema = query_schema();
    schemas_are_sound();
    run_of_nothing(schema);
    let pattern = args.drive_pattern.text();
    run_push_valued(schema, Seq::empty(), 0, pattern);
    let named = Seq::<Seq<char>>::empty().push(schema.valued[0]).push(pattern);
    run_push_positional(schema, named, args.query@);
    let head = seq!["--drive-pattern"@, pattern, args.query@];
    assert(head =~= named.push(args.query@));
    let first = if args.limit != DEFAULT_LIMIT {
        head.push("--limit"@).push(decimal(args.limit as nat))
    } else {
        head
    };
    if args.limit != DEFAULT_LIMIT {
        run_push_valued(schema, head, 1, decimal(args.limit as nat));
        number_of_decimal(args.limit as nat);
    }
    let interval = humantime_text(args.display_interval as nat);
    let second = if args.display_interval != DEFAULT_DISPLAY_INTERVAL {
        first.push("--display-interval"@).push(interval)
    } else {
        first
    };
    if args.display_interval != DEFAULT_DISPLAY_INTERVAL {
        run_push_valued(schema, first, 2, interval);
    }
    if args.top_n != DEFAULT_TOP {
        run_push_valued(schema, second, 3, decimal(args.top_n as nat));
        number_of_decimal(args.top_n as nat);
    }
}

/// Whether nothing that a command line writes as a positional argument
/// looks like a flag.
pub open spec fn plainly_written(cli: Cli) -> bool {
    match cli.action {
        Action::Mft(mft) => match mft.action {
            MftAction::Dump(args) => !flag_like(args.drive_letters.text()) && !flag_like(
                args.output_path@,
            ),
            MftAction::Sync(args) => !flag_like(args.drive_pattern.text()),
            MftAction::Diff(args) => !flag_like(args.file1@) && !flag_like(args.file2@),
            MftAction::Show(args) => args.mft_pattern is Some ==> !flag_like(args.mft_pattern->0@),
            MftAction::Query(args) => !flag_like(args.query@),
            MftAction::Summarize(args) => !flag_like(args.mft_file@),
        },
        Action::Elevation(_) => true,
        Action::Config(_) => true,
    }
}

/// Whether what an action writes is read back as the action.
pub open spec fn action_reads_back(action: Action) -> bool {
    let written = action.arg_texts();
    written.len() >= 2 && command_of(written[0], written[1], written.skip(2)) == Ok::<
        CommandView,
        ParseError,
    >(action.request())
}

/// The actions of `mft` read their own arguments back.
proof fn mft_reads_back(action: Action)
    requires
        action is Mft,
        plainly_written(Cli { global_args: GlobalArgs { debug: false }, action }),
        action.interval_reads_back(),
    ensures
        action_reads_back(action),
{
    reveal_strlit("mft");
    reveal_strlit("dump");
    reveal_strlit("sync");
    reveal_strlit("diff");
    reveal_strlit("show");
    reveal_strlit("query");
    reveal_strlit("summarize");
    assert("dump"@[1] != "diff"@[1] && "dump"@[0] != "sync"@[0] && "dump"@[0] != "show"@[0]);
    assert("sync"@[1] != "show"@[1] && "sync"@[0] != "diff"@[0] && "diff"@[0] != "show"@[0]);
    let mft = action->Mft_0;
    let written = action.arg_texts();
    assert(written =~= seq!["mft"@] + mft.action.arg_texts());
    assert(written[1] == mft.action.name());
    match mft.action {
        MftAction::Dump(a) => {
            dump_reads_back(a);
            assert(written.skip(2) =~= a.arg_texts());
        },
        MftAction::Sync(a) => {
            sync_reads_back(a);
            assert(written.skip(2) =~= a.arg_texts());
        },
        MftAction::Diff(a) => {
            diff_reads_back(a);
            assert(written.skip(2) =~= a.arg_texts());
        },
        MftAction::Show(a) => {
            show_reads_back(a);
            assert(written.skip(2) =~= a.arg_texts());
        },
        MftAction::Query(a) => {
            query_reads_back(a);
            assert(written.skip(2) =~= a.arg_texts());
        },
        MftAction::Summarize(a) => {
            summarize_reads_back(a);
            assert(written.skip(2) =~= a.arg_texts());
        },
    }
}

/// The actions of `elevation` and `config` read their own arguments back.
proof fn plain_actions_read_back(action: Action)
    requires
        !(action is Mft),
    ensures
        action_reads_back(action),
{
    reveal_strlit("mft");
    reveal_strlit("elevation");
    reveal_strlit("config");
    reveal_strlit("check");
    reveal_strlit("test");
    reveal_strlit("show");
    reveal_strlit("get");
    reveal_strlit("set");
    reveal_strlit("cache-dir");
    assert("get"@[0] != "set"@[0]);
    assert("check"@.len() != "test"@.len());
    assert("show"@.len() != "get"@.len() && "show"@.len() != "set"@.len());
    assert("mft"@.len() != "elevation"@.len() && "mft"@.len() != "config"@.len()
        && "elevation"@.len() != "config"@.len());
    let written = action.arg_texts();
    match action {
        Action::Mft(_) => {},
        Action::Elevation(elevation) => {
            match elevation.action {
                ElevationAction::Check(_) => {
                    assert(written =~= seq!["elevation"@, "check"@]);
                },
                ElevationAction::Test(_) => {
                    assert(written =~= seq!["elevation"@, "test"@]);
                },
            }
            assert(written.skip(2) =~= Seq::<Seq<char>>::empty());
        },
        Action::Config(config) => {
            match config.action {
                ConfigAction::Show => {
                    assert(written =~= seq!["config"@, "show"@]);
                    assert(written.skip(2) =~= Seq::<Seq<char>>::empty());
                },
                ConfigAction::Get { key } => {
                    assert(written =~= seq!["config"@, "get"@, key.name()]);
                    assert(written.skip(2) =~= seq![key.name()]);
                },
                ConfigAction::SetValue { key, value } => {
                    assert(written =~= seq!["config"@, "set"@, key.name(), value@]);
                    assert(written.skip(2) =~= seq![key.name(), value@]);
                },
            }
        },
    }
}

/// What a command line writes as its arguments is read back as the same
/// command line, where it is plainly written and the span of time that a
/// search writes is read back as it was.
pub proof fn args_read_back(cli: Cli)
    requires
        plainly_written(cli),
        cli.interval_reads_back(),
    ensures
        parsed(cli.arg_texts()) == Ok::<CliView, ParseError>(cli@),
{
    reveal_strlit("--debug");
    reveal_strlit("mft");
    reveal_strlit("elevation");
    reveal_strlit("config");
    if cli.action is Mft {
        mft_reads_back(cli.action);
    } else {
        plain_actions_read_back(cli.action);
    }
    let args = cli.arg_texts();
    let written = cli.action.arg_texts();
    assert(written[0].len() != "--debug"@.len());
    if cli.global_args.debug {
        assert(args =~= seq!["--debug"@] + written);
        assert(args.skip(1) =~= written);
    } else {
        assert(args =~= written);
    }
}

} // verus!
