use storage_usage::cli::action::Action;
use storage_usage::cli::command::Command;
use storage_usage::cli::config_action::ConfigAction;
use storage_usage::cli::config_action::ConfigArgs;
use storage_usage::cli::config_action::ConfigKey;
use storage_usage::cli::drive_letter_pattern::DriveLetterPattern;
use storage_usage::cli::drive_letter_pattern::PatternError;
use storage_usage::cli::drive_letter_pattern::enumerate_drives;
use storage_usage::cli::elevation_action::ElevationAction;
use storage_usage::cli::elevation_action::ElevationArgs;
use storage_usage::cli::elevation_check_action::ElevationCheckArgs;
use storage_usage::cli::elevation_test_action::ElevationTestArgs;
use storage_usage::cli::error::CliError;
use storage_usage::cli::global_args::GlobalArgs;
use storage_usage::cli::global_args::LogLevel;
use storage_usage::cli::mft_action::MftAction;
use storage_usage::cli::mft_action::MftArgs;
use storage_usage::cli::mft_diff_action::MftDiffArgs;
use storage_usage::cli::mft_dump_action::MftDumpArgs;
use storage_usage::cli::mft_query_action::is_moderate;
use storage_usage::cli::mft_query_action::MftQueryArgs;
use storage_usage::cli::mft_show_action::MftShowArgs;
use storage_usage::cli::mft_summarize_action::MftSummarizeArgs;
use storage_usage::cli::mft_sync_action::cache_file_name;
use storage_usage::cli::mft_sync_action::MftSyncArgs;
use storage_usage::cli::parse::ParseError;
use storage_usage::cli::Cli;
use storage_usage::to_args::parameters_of;
use storage_usage::to_args::ThisInvocation;
use storage_usage::to_args::ToArgs;

fn pattern(text: &str) -> DriveLetterPattern {
    DriveLetterPattern::new(text.to_string())
}

fn dump(drives: &str, output: &str, overwrite: bool) -> MftDumpArgs {
    MftDumpArgs {
        drive_letters: pattern(drives),
        output_path: output.to_string(),
        overwrite_existing: overwrite,
    }
}

fn query(text: &str) -> MftQueryArgs {
    MftQueryArgs {
        drive_pattern: DriveLetterPattern::all(),
        query: text.to_string(),
        limit: 100,
        display_interval: 1_000_000_000,
        top_n: 10,
    }
}

/// A command line made from a few bytes, the same for the same bytes.
fn cli_from(seed: &[u8]) -> Cli {
    let b = |i: usize| seed[i % seed.len()];
    let flag = |i: usize| b(i) % 2 == 1;
    let number = |i: usize| if flag(i) { Some(b(i + 1) as usize * 3) } else { None };
    let name = |i: usize| format!("file_{}_{}.mft", b(i), b(i + 1));
    let letter = |i: usize| ((b'A' + b(i) % 26) as char).to_string();
    let action = match b(0) % 9 {
        0 => Action::Mft(MftArgs {
            action: MftAction::Dump(dump(&letter(1), &name(2), flag(3))),
        }),
        1 => Action::Mft(MftArgs {
            action: MftAction::Sync(MftSyncArgs {
                drive_pattern: pattern(&letter(1)),
                overwrite_existing: flag(2),
            }),
        }),
        2 => Action::Mft(MftArgs {
            action: MftAction::Diff(MftDiffArgs {
                file1: name(1),
                file2: name(3),
                verbose: flag(5),
                max_diffs: number(6),
            }),
        }),
        3 => Action::Mft(MftArgs {
            action: MftAction::Show(MftShowArgs {
                mft_pattern: if flag(1) { Some(name(2)) } else { None },
                verbose: flag(3),
                show_paths: flag(4),
                max_entries: number(5),
                threads: number(7),
            }),
        }),
        4 => Action::Mft(MftArgs {
            action: MftAction::Query(MftQueryArgs {
                drive_pattern: pattern(&letter(1)),
                query: name(2),
                limit: b(3) as usize,
                display_interval: b(4) as u64 * 250_000_000 + b(6) as u64 * 36_610_100_001_500,
                top_n: b(5) as usize,
            }),
        }),
        5 => Action::Mft(MftArgs {
            action: MftAction::Summarize(MftSummarizeArgs {
                mft_file: name(1),
                verbose: flag(2),
                show_paths: flag(3),
                max_entries: number(4),
            }),
        }),
        6 => Action::Elevation(ElevationArgs {
            action: if flag(1) {
                ElevationAction::Check(ElevationCheckArgs {})
            } else {
                ElevationAction::Test(ElevationTestArgs {})
            },
        }),
        7 => Action::Config(ConfigArgs {
            action: if flag(1) {
                ConfigAction::Show
            } else {
                ConfigAction::Get { key: ConfigKey::CacheDir }
            },
        }),
        _ => Action::Config(ConfigArgs {
            action: ConfigAction::SetValue { key: ConfigKey::CacheDir, value: name(1) },
        }),
    };
    Cli { global_args: GlobalArgs { debug: flag(9) }, action }
}

#[test]
fn fuzz_cli_args_consistency() {
    // the same command line always gives the same arguments
    for i in 0..50u8 {
        let seed: Vec<u8> = (0..16u8).map(|k| k.wrapping_mul(31).wrapping_add(i.wrapping_mul(123))).collect();
        let cli = cli_from(&seed);
        let args1 = cli.to_args();
        let args2 = cli.to_args();
        assert_eq!(args1, args2, "CLI.to_args() should be deterministic for iteration {}", i);
        assert_eq!(cli.args(), args1);
        assert_eq!(cli_from(&seed).to_args(), args1);
    }
}

#[test]
fn dump_arguments_are_pattern_path_and_flag() {
    let cli = Cli {
        global_args: GlobalArgs { debug: false },
        action: Action::Mft(MftArgs {
            action: MftAction::Dump(dump("C", "test_output.bin", false)),
        }),
    };
    assert_eq!(cli.to_args(), vec!["mft", "dump", "C", "test_output.bin"]);
    let cli = Cli {
        global_args: GlobalArgs { debug: true },
        action: Action::Mft(MftArgs {
            action: MftAction::Dump(dump("D", "another_output.bin", true)),
        }),
    };
    assert_eq!(
        cli.to_args(),
        vec!["--debug", "mft", "dump", "D", "another_output.bin", "--overwrite-existing"]
    );
}

#[test]
fn elevation_arguments_name_the_action() {
    let check = Cli {
        global_args: GlobalArgs { debug: false },
        action: Action::Elevation(ElevationArgs {
            action: ElevationAction::Check(ElevationCheckArgs {}),
        }),
    };
    assert_eq!(check.to_args(), vec!["elevation", "check"]);
    let test = Cli {
        global_args: GlobalArgs { debug: true },
        action: Action::Elevation(ElevationArgs {
            action: ElevationAction::Test(ElevationTestArgs {}),
        }),
    };
    assert_eq!(test.to_args(), vec!["--debug", "elevation", "test"]);
}

#[test]
fn config_arguments_name_key_and_value() {
    assert_eq!(ConfigAction::Show.to_args(), vec!["show"]);
    assert_eq!(ConfigAction::Get { key: ConfigKey::CacheDir }.to_args(), vec!["get", "cache-dir"]);
    let set = ConfigArgs {
        action: ConfigAction::SetValue { key: ConfigKey::CacheDir, value: "D:\\cache".to_string() },
    };
    assert_eq!(set.to_args(), vec!["set", "cache-dir", "D:\\cache"]);
    assert_eq!(ConfigKey::CacheDir.as_str(), "cache-dir");
    let all = Cli { global_args: GlobalArgs::default(), action: Action::Config(set) };
    assert_eq!(all.to_args(), vec!["config", "set", "cache-dir", "D:\\cache"]);
}

#[test]
fn diff_arguments_carry_the_limit_in_decimal() {
    let args = MftDiffArgs {
        file1: "a.mft".to_string(),
        file2: "b.mft".to_string(),
        verbose: true,
        max_diffs: Some(25),
    };
    assert_eq!(args.to_args(), vec!["a.mft", "b.mft", "--verbose", "--max-diffs", "25"]);
    let args = MftDiffArgs {
        file1: "a.mft".to_string(),
        file2: "b.mft".to_string(),
        verbose: false,
        max_diffs: None,
    };
    assert_eq!(args.to_args(), vec!["a.mft", "b.mft"]);
}

#[test]
fn show_and_summarize_arguments() {
    let show = MftShowArgs {
        mft_pattern: Some("*.mft".to_string()),
        verbose: true,
        show_paths: true,
        max_entries: Some(1000),
        threads: Some(8),
    };
    assert_eq!(
        show.to_args(),
        vec!["*.mft", "--verbose", "--show-paths", "--max-entries", "1000", "--threads", "8"]
    );
    let bare = MftShowArgs {
        mft_pattern: None,
        verbose: false,
        show_paths: false,
        max_entries: None,
        threads: None,
    };
    assert!(bare.to_args().is_empty());
    let summarize = MftSummarizeArgs {
        mft_file: "C.mft".to_string(),
        verbose: false,
        show_paths: true,
        max_entries: Some(0),
    };
    assert_eq!(summarize.to_args(), vec!["C.mft", "--show-paths", "--max-entries", "0"]);
}

#[test]
fn query_arguments_leave_out_defaults() {
    assert_eq!(query("report").to_args(), vec!["--drive-pattern", "*", "report"]);
    let mut q = query("report");
    q.drive_pattern = pattern("CD");
    q.limit = 5;
    q.display_interval = 500_000_000;
    q.top_n = 3;
    assert_eq!(
        q.to_args(),
        vec![
            "--drive-pattern",
            "CD",
            "report",
            "--limit",
            "5",
            "--display-interval",
            "500ms",
            "--top",
            "3"
        ]
    );
    let mut q = query("x");
    q.display_interval = 90_000_000_000;
    assert_eq!(
        q.to_args(),
        vec!["--drive-pattern", "*", "x", "--display-interval", "1m 30s"]
    );
}

#[test]
fn sync_arguments() {
    let sync = MftSyncArgs { drive_pattern: pattern("C,D"), overwrite_existing: true };
    assert_eq!(sync.to_args(), vec!["C,D", "--overwrite-existing"]);
    let sync = MftSyncArgs { drive_pattern: DriveLetterPattern::all(), overwrite_existing: false };
    assert_eq!(sync.to_args(), vec!["*"]);
    assert_eq!(sync.drives(0b1_0100), Ok(vec!['C', 'E']));
    assert_eq!(cache_file_name('C'), "C.mft");
}

#[test]
fn this_invocation_passes_on_everything_after_the_program() {
    let argv = vec!["prog.exe".to_string(), "mft".to_string(), "sync".to_string()];
    assert_eq!(ThisInvocation::new(argv).to_args(), vec!["mft", "sync"]);
    assert!(ThisInvocation::new(vec!["prog.exe".to_string()]).to_args().is_empty());
    assert!(ThisInvocation::new(Vec::new()).to_args().is_empty());
}

#[test]
fn parameters_are_the_arguments_each_followed_by_a_space() {
    let args = vec!["elevation".to_string(), "check".to_string()];
    assert_eq!(parameters_of(&args), "elevation check ");
    assert_eq!(parameters_of(&Vec::new()), "");
}

#[test]
fn log_level_follows_the_debug_flag() {
    assert_eq!(GlobalArgs { debug: true }.log_level(), LogLevel::Debug);
    assert_eq!(GlobalArgs { debug: false }.log_level(), LogLevel::Info);
    assert!(!GlobalArgs::default().debug);
    let mut args = vec!["x".to_string()];
    GlobalArgs { debug: true }.add_args(&mut args);
    assert_eq!(args, vec!["x", "--debug"]);
}

#[test]
fn run_turns_arguments_into_the_request() {
    let cli = Cli {
        global_args: GlobalArgs { debug: false },
        action: Action::Mft(MftArgs {
            action: MftAction::Diff(MftDiffArgs {
                file1: "a".to_string(),
                file2: "b".to_string(),
                verbose: true,
                max_diffs: Some(2),
            }),
        }),
    };
    match cli.run() {
        Ok(Command::MftDiff { file1, file2, verbose, max_diffs }) => {
            assert_eq!(file1, "a");
            assert_eq!(file2, "b");
            assert!(verbose);
            assert_eq!(max_diffs, Some(2));
        }
        other => panic!("not a diff: {:?}", other),
    }
    assert!(matches!(ConfigArgs { action: ConfigAction::Show }.run(), Command::ConfigShow));
    assert!(matches!(
        ConfigAction::Get { key: ConfigKey::CacheDir }.run(),
        Command::ConfigGet { key: ConfigKey::CacheDir }
    ));
    assert!(matches!(
        ElevationArgs { action: ElevationAction::Check(ElevationCheckArgs {}) }.run(),
        Command::ElevationCheck
    ));
    assert!(matches!(ElevationAction::Test(ElevationTestArgs {}).run(), Command::ElevationTest));
    assert!(matches!(
        MftShowArgs {
            mft_pattern: None,
            verbose: false,
            show_paths: false,
            max_entries: None,
            threads: None
        }
        .run(),
        Command::MftShow { mft_pattern: None, .. }
    ));
    assert!(matches!(
        MftSummarizeArgs {
            mft_file: "C.mft".to_string(),
            verbose: false,
            show_paths: false,
            max_entries: None
        }
        .run(),
        Command::MftSummarize { .. }
    ));
    assert!(matches!(dump("C", "o", true).run(), Command::MftDump { overwrite_existing: true, .. }));
}

#[test]
fn blank_query_is_refused() {
    assert!(matches!(query("  \t").run(), Err(CliError::EmptyQuery)));
    assert!(matches!(query("").run(), Err(CliError::EmptyQuery)));
    assert!(matches!(query(" x ").run(), Ok(Command::MftQuery { .. })));
    let action = Action::Mft(MftArgs { action: MftAction::Query(query("")) });
    assert!(matches!(action.run(), Err(CliError::EmptyQuery)));
}

#[test]
fn wildcard_resolves_to_the_drives_that_are_present() {
    // bits 2, 3 and 25: C, D and Z
    let present = (1 << 2) | (1 << 3) | (1 << 25);
    assert_eq!(enumerate_drives(present), vec!['C', 'D', 'Z']);
    assert_eq!(DriveLetterPattern::all().resolve(present), Ok(vec!['C', 'D', 'Z']));
    assert_eq!(DriveLetterPattern::all().resolve(0), Err(PatternError::NoDrives));
    // bits beyond the alphabet stand for nothing
    assert_eq!(DriveLetterPattern::all().resolve(1 << 26), Err(PatternError::NoDrives));
}

#[test]
fn letters_resolve_in_upper_case_without_repeats() {
    assert_eq!(pattern("C").resolve(0), Ok(vec!['C']));
    assert_eq!(pattern("cd").resolve(0), Ok(vec!['C', 'D']));
    assert_eq!(pattern("C,D,E").resolve(0), Ok(vec!['C', 'D', 'E']));
    assert_eq!(pattern("D E\tf").resolve(0), Ok(vec!['D', 'E', 'F']));
    assert_eq!(pattern("c, C ,d").resolve(0), Ok(vec!['C', 'D']));
    assert_eq!(pattern("ZA").resolve(0), Ok(vec!['Z', 'A']));
}

#[test]
fn invalid_patterns_are_refused() {
    assert_eq!(pattern("C:").resolve(0), Err(PatternError::InvalidCharacter));
    assert_eq!(pattern("C*").resolve(0), Err(PatternError::InvalidCharacter));
    assert_eq!(pattern("1").resolve(0), Err(PatternError::InvalidCharacter));
    assert_eq!(pattern("").resolve(0), Err(PatternError::NoDrives));
    assert_eq!(pattern(" , ").resolve(0), Err(PatternError::NoDrives));
    assert_eq!(pattern("C").to_text(), "C");
}

#[test]
fn single_drive_is_dumped_to_the_path_as_it_stands() {
    let jobs = dump("c", "out_%s.bin", true).jobs(0).unwrap();
    assert_eq!(jobs.len(), 1);
    assert_eq!(jobs[0].drive_letter, 'C');
    assert_eq!(jobs[0].output_path, "out_%s.bin");
    assert!(jobs[0].overwrite_existing);
}

#[test]
fn several_drives_need_the_placeholder() {
    let jobs = dump("CD", "dump-%s.mft", false).jobs(0).unwrap();
    assert_eq!(jobs.len(), 2);
    assert_eq!(jobs[0].drive_letter, 'C');
    assert_eq!(jobs[0].output_path, "dump-C.mft");
    assert_eq!(jobs[1].drive_letter, 'D');
    assert_eq!(jobs[1].output_path, "dump-D.mft");
    assert!(!jobs[1].overwrite_existing);
    assert!(matches!(dump("CD", "dump.mft", false).jobs(0), Err(CliError::MissingPlaceholder)));
    let jobs = dump("*", "%s/%s.mft", false).jobs(0b1100).unwrap();
    assert_eq!(jobs[1].output_path, "D/D.mft");
}

#[test]
fn dump_without_drives_is_refused() {
    assert!(matches!(dump("*", "o_%s", false).jobs(0), Err(CliError::NoDrives)));
    assert!(matches!(dump("?", "o_%s", false).jobs(0), Err(CliError::InvalidDrivePattern)));
}

fn read(args: &[&str]) -> Result<Cli, ParseError> {
    let mut argv = vec!["test-exe".to_string()];
    argv.extend(args.iter().map(|a| a.to_string()));
    Cli::try_parse_from(&argv)
}

fn read_request(args: &[&str]) -> String {
    format!("{:?}", read(args).expect("the arguments are a command line").run())
}

#[test]
fn fuzz_cli_args_roundtrip() {
    // what a command line writes is read back as the same command line
    for i in 0..100u8 {
        let seed: Vec<u8> =
            (0..16u8).map(|k| k.wrapping_mul(29).wrapping_add(i.wrapping_mul(42))).collect();
        let cli = cli_from(&seed);
        let args = cli.to_args();
        let mut full_args = vec!["test-exe".to_string()];
        full_args.extend(args);
        let parsed_cli = match Cli::try_parse_from(&full_args) {
            Ok(parsed) => parsed,
            Err(e) => {
                panic!(
                    "Failed to parse CLI args on iteration {}: {:?}\nOriginal CLI: {:?}\nArgs: {:?}",
                    i, e, cli, full_args
                );
            }
        };
        if format!("{:?}", cli) != format!("{:?}", parsed_cli) {
            panic!(
                "CLI roundtrip failed on iteration {}:\nOriginal: {:?}\nParsed: {:?}\nArgs: {:?}",
                i, cli, parsed_cli, full_args
            );
        }
    }
}

#[test]
fn test_specific_cli_cases() {
    let test_cases = vec![
        Cli {
            global_args: GlobalArgs { debug: false },
            action: Action::Mft(MftArgs {
                action: MftAction::Dump(dump("C", "test_output.bin", false)),
            }),
        },
        Cli {
            global_args: GlobalArgs { debug: true },
            action: Action::Mft(MftArgs {
                action: MftAction::Dump(dump("D", "another_output.bin", true)),
            }),
        },
        Cli {
            global_args: GlobalArgs { debug: false },
            action: Action::Elevation(ElevationArgs {
                action: ElevationAction::Check(ElevationCheckArgs {}),
            }),
        },
        Cli {
            global_args: GlobalArgs { debug: true },
            action: Action::Elevation(ElevationArgs {
                action: ElevationAction::Test(ElevationTestArgs {}),
            }),
        },
    ];
    for (i, cli) in test_cases.into_iter().enumerate() {
        let args = cli.to_args();
        let mut full_args = vec!["test-exe".to_string()];
        full_args.extend(args);
        let parsed_cli = Cli::try_parse_from(&full_args)
            .unwrap_or_else(|e| panic!("Failed to parse CLI args for test case {}: {:?}", i, e));
        assert_eq!(
            format!("{:?}", cli),
            format!("{:?}", parsed_cli),
            "CLI roundtrip failed for test case {}",
            i
        );
    }
}

#[test]
fn arguments_without_a_command_are_refused() {
    assert_eq!(Cli::try_parse_from(&vec![]).unwrap_err(), ParseError::MissingCommand);
    assert_eq!(read(&[]).unwrap_err(), ParseError::MissingCommand);
    assert_eq!(read(&["--debug"]).unwrap_err(), ParseError::MissingCommand);
    assert_eq!(read(&["mft"]).unwrap_err(), ParseError::MissingCommand);
    assert_eq!(read(&["--debug", "elevation"]).unwrap_err(), ParseError::MissingCommand);
}

#[test]
fn unknown_commands_are_refused() {
    assert_eq!(read(&["disk", "show"]).unwrap_err(), ParseError::UnknownCommand);
    assert_eq!(read(&["mft", "erase"]).unwrap_err(), ParseError::UnknownCommand);
    assert_eq!(read(&["elevation", "drop"]).unwrap_err(), ParseError::UnknownCommand);
    assert_eq!(read(&["config", "reset"]).unwrap_err(), ParseError::UnknownCommand);
    // the flag for debugging comes before the command
    assert_eq!(read(&["mft", "--debug", "show"]).unwrap_err(), ParseError::UnknownCommand);
}

#[test]
fn wrong_flags_and_surplus_arguments_are_refused() {
    assert_eq!(read(&["mft", "show", "--fast"]).unwrap_err(), ParseError::BadArguments);
    assert_eq!(
        read(&["mft", "show", "--verbose", "--verbose"]).unwrap_err(),
        ParseError::BadArguments
    );
    assert_eq!(read(&["mft", "show", "--max-entries"]).unwrap_err(), ParseError::BadArguments);
    assert_eq!(
        read(&["mft", "show", "--threads", "2", "-j", "3"]).unwrap_err(),
        ParseError::BadArguments
    );
    assert_eq!(read(&["mft", "show", "a.mft", "b.mft"]).unwrap_err(), ParseError::BadArguments);
    assert_eq!(read(&["mft", "dump", "C", "out", "more"]).unwrap_err(), ParseError::BadArguments);
    assert_eq!(read(&["elevation", "check", "now"]).unwrap_err(), ParseError::BadArguments);
    assert_eq!(read(&["config", "show", "all"]).unwrap_err(), ParseError::BadArguments);
    assert_eq!(
        read(&["config", "get", "cache-dir", "more"]).unwrap_err(),
        ParseError::BadArguments
    );
}

#[test]
fn missing_arguments_are_refused() {
    assert_eq!(read(&["mft", "dump", "C"]).unwrap_err(), ParseError::MissingArgument);
    assert_eq!(read(&["mft", "diff", "a.mft"]).unwrap_err(), ParseError::MissingArgument);
    assert_eq!(read(&["mft", "summarize"]).unwrap_err(), ParseError::MissingArgument);
    assert_eq!(read(&["mft", "query", "--limit", "5"]).unwrap_err(), ParseError::MissingArgument);
    assert_eq!(read(&["config", "get"]).unwrap_err(), ParseError::MissingArgument);
    assert_eq!(read(&["config", "set"]).unwrap_err(), ParseError::MissingArgument);
}

#[test]
fn values_that_cannot_be_read_are_refused() {
    assert_eq!(
        read(&["mft", "diff", "a", "b", "--max-diffs", "ten"]).unwrap_err(),
        ParseError::InvalidValue
    );
    assert_eq!(
        read(&["mft", "show", "--max-entries", "-3"]).unwrap_err(),
        ParseError::InvalidValue
    );
    assert_eq!(
        read(&["mft", "show", "-j", "99999999999999999999999"]).unwrap_err(),
        ParseError::InvalidValue
    );
    assert_eq!(
        read(&["mft", "query", "x", "--display-interval", "soon"]).unwrap_err(),
        ParseError::InvalidValue
    );
    // a number of more than ten digits, also where blanks stand between them
    assert_eq!(
        read(&["mft", "query", "x", "--display-interval", "12345678901s"]).unwrap_err(),
        ParseError::InvalidValue
    );
    assert_eq!(
        read(&["mft", "query", "x", "--display-interval", "1844674407 3709551615s1000ms"])
            .unwrap_err(),
        ParseError::InvalidValue
    );
    // more than ten numbers
    assert_eq!(
        read(&["mft", "query", "x", "--display-interval", "1s 1s 1s 1s 1s 1s 1s 1s 1s 1s 1s"])
            .unwrap_err(),
        ParseError::InvalidValue
    );
    assert_eq!(read(&["config", "get", "colour"]).unwrap_err(), ParseError::InvalidValue);
}

#[test]
fn flags_may_stand_anywhere_behind_the_action() {
    assert_eq!(
        read_request(&["mft", "dump", "--overwrite-existing", "CD", "out_%s.mft"]),
        read_request(&["mft", "dump", "CD", "out_%s.mft", "--overwrite-existing"])
    );
    let cli = read(&["--debug", "mft", "diff", "--max-diffs", "25", "a.mft", "--verbose", "b.mft"])
        .unwrap();
    assert!(cli.global_args.debug);
    match cli.action {
        Action::Mft(MftArgs { action: MftAction::Diff(args) }) => {
            assert_eq!(args.file1, "a.mft");
            assert_eq!(args.file2, "b.mft");
            assert!(args.verbose);
            assert_eq!(args.max_diffs, Some(25));
        }
        other => panic!("not a diff: {:?}", other),
    }
}

#[test]
fn values_that_are_left_out_take_their_defaults() {
    match read(&["mft", "sync"]).unwrap().action {
        Action::Mft(MftArgs { action: MftAction::Sync(args) }) => {
            assert_eq!(args.drive_pattern.to_text(), "*");
            assert!(!args.overwrite_existing);
        }
        other => panic!("not a sync: {:?}", other),
    }
    match read(&["mft", "query", "report"]).unwrap().action {
        Action::Mft(MftArgs { action: MftAction::Query(args) }) => {
            assert_eq!(args.drive_pattern.to_text(), "*");
            assert_eq!(args.query, "report");
            assert_eq!(args.limit, 100);
            assert_eq!(args.display_interval, 1_000_000_000);
            assert_eq!(args.top_n, 10);
        }
        other => panic!("not a query: {:?}", other),
    }
    match read(&["mft", "show"]).unwrap().action {
        Action::Mft(MftArgs { action: MftAction::Show(args) }) => {
            assert_eq!(args.mft_pattern, None);
            assert_eq!(args.max_entries, None);
            assert_eq!(args.threads, None);
            assert!(!args.verbose && !args.show_paths);
        }
        other => panic!("not a show: {:?}", other),
    }
    match read(&["config", "set", "cache-dir"]).unwrap().action {
        Action::Config(ConfigArgs { action: ConfigAction::SetValue { key, value } }) => {
            assert_eq!(key, ConfigKey::CacheDir);
            assert_eq!(value, ".");
        }
        other => panic!("not a set: {:?}", other),
    }
}

#[test]
fn query_values_are_read() {
    let cli = read(&[
        "mft",
        "query",
        "--drive-pattern",
        "C,D",
        "budget",
        "--limit",
        "7",
        "--display-interval",
        "500ms",
        "--top",
        "3",
    ])
    .unwrap();
    match cli.action {
        Action::Mft(MftArgs { action: MftAction::Query(args) }) => {
            assert_eq!(args.drive_pattern.to_text(), "C,D");
            assert_eq!(args.query, "budget");
            assert_eq!(args.limit, 7);
            assert_eq!(args.display_interval, 500_000_000);
            assert_eq!(args.top_n, 3);
        }
        other => panic!("not a query: {:?}", other),
    }
    match read(&["mft", "query", "x", "--display-interval", "1m 30s"]).unwrap().action {
        Action::Mft(MftArgs { action: MftAction::Query(args) }) => {
            assert_eq!(args.display_interval, 90_000_000_000);
        }
        other => panic!("not a query: {:?}", other),
    }
}

#[test]
fn threads_have_a_short_flag() {
    match read(&["mft", "show", "*.mft", "-j", "4", "--show-paths"]).unwrap().action {
        Action::Mft(MftArgs { action: MftAction::Show(args) }) => {
            assert_eq!(args.mft_pattern.as_deref(), Some("*.mft"));
            assert_eq!(args.threads, Some(4));
            assert!(args.show_paths);
            assert!(!args.verbose);
        }
        other => panic!("not a show: {:?}", other),
    }
}

#[test]
fn written_interval_is_read_back() {
    for millis in [
        0u64,
        1,
        250,
        999,
        1001,
        1_500,
        1_500_000,
        60_000_000_000,
        86_400_000_000_000,
        3_723_004_005_006,
        86_399_999_999_999,
        36_610_100_000_000,
        31_557_599_999_999_999,
        u64::MAX / 2,
        u64::MAX - 1,
        u64::MAX,
    ] {
        let mut args = query("x");
        args.display_interval = millis;
        let cli = Cli {
            global_args: GlobalArgs { debug: false },
            action: Action::Mft(MftArgs { action: MftAction::Query(args) }),
        };
        let mut argv = vec!["test-exe".to_string()];
        argv.extend(cli.args());
        match Cli::try_parse_from(&argv).unwrap().action {
            Action::Mft(MftArgs { action: MftAction::Query(back) }) => {
                assert_eq!(back.display_interval, millis);
            }
            other => panic!("not a query: {:?}", other),
        }
    }
}

#[test]
fn value_of_a_flag_may_look_like_a_flag() {
    match read(&["mft", "query", "--drive-pattern", "--top", "x"]).unwrap().action {
        Action::Mft(MftArgs { action: MftAction::Query(args) }) => {
            assert_eq!(args.drive_pattern.to_text(), "--top");
            assert_eq!(args.query, "x");
            assert_eq!(args.top_n, 10);
        }
        other => panic!("not a query: {:?}", other),
    }
}

#[test]
fn long_spans_of_time_are_read() {
    match read(&["mft", "query", "x", "--display-interval", "1h 2m 3s 4ms 5us 6ns"]).unwrap().action
    {
        Action::Mft(MftArgs { action: MftAction::Query(args) }) => {
            assert_eq!(args.display_interval, 3_723_004_005_006);
        }
        other => panic!("not a query: {:?}", other),
    }
    match read(&["mft", "query", "x", "--display-interval", "23h 59m 59s 999ms"]).unwrap().action {
        Action::Mft(MftArgs { action: MftAction::Query(args) }) => {
            assert_eq!(args.display_interval, 86_399_999_000_000);
        }
        other => panic!("not a query: {:?}", other),
    }
}

#[test]
fn spans_of_time_hold_few_short_numbers() {
    assert!(is_moderate(""));
    assert!(is_moderate("1s"));
    assert!(is_moderate("584554530years 10months 5days 7h 12m 55s 615ms"));
    assert!(is_moderate("1234567890s"));
    assert!(!is_moderate("12345678901s"));
    // blanks do not part a number
    assert!(!is_moderate("123456 78901s"));
    assert!(is_moderate("12345s 78901s"));
    // the point parts a number from its fraction
    assert!(is_moderate("1234567890.1234567890s"));
    assert!(is_moderate("1s 2s 3s 4s 5s 6s 7s 8s 9s 10s"));
    assert!(!is_moderate("1s 2s 3s 4s 5s 6s 7s 8s 9s 10s 11s"));
    assert!(is_moderate("no digits at all, however long the text may be"));
}

#[test]
fn search_with_a_long_interval_is_read_back() {
    for millis in [86_399_999_000_000u64, 36_610_100_000_000, 1_500, u64::MAX] {
        let mut args = query("budget");
        args.display_interval = millis;
        args.limit = 7;
        let cli = Cli {
            global_args: GlobalArgs { debug: true },
            action: Action::Mft(MftArgs { action: MftAction::Query(args) }),
        };
        let mut argv = vec!["test-exe".to_string()];
        argv.extend(cli.to_args());
        let back = Cli::try_parse_from(&argv).expect("what was written is read");
        assert_eq!(format!("{:?}", cli), format!("{:?}", back));
    }
}

#[test]
fn values_may_stand_behind_the_name_of_their_flag() {
    match read(&["mft", "query", "x", "--limit=5", "--top=3", "--drive-pattern=C,D"]).unwrap().action
    {
        Action::Mft(MftArgs { action: MftAction::Query(args) }) => {
            assert_eq!(args.limit, 5);
            assert_eq!(args.top_n, 3);
            assert_eq!(args.drive_pattern.to_text(), "C,D");
            assert_eq!(args.query, "x");
        }
        other => panic!("not a query: {:?}", other),
    }
    for written in ["-j4", "-j=4", "--threads=4"] {
        match read(&["mft", "show", written]).unwrap().action {
            Action::Mft(MftArgs { action: MftAction::Show(args) }) => {
                assert_eq!(args.threads, Some(4), "{written}");
                assert_eq!(args.mft_pattern, None);
            }
            other => panic!("not a show: {:?}", other),
        }
    }
    match read(&["mft", "query", "x", "--display-interval=1m 30s"]).unwrap().action {
        Action::Mft(MftArgs { action: MftAction::Query(args) }) => {
            assert_eq!(args.display_interval, 90_000_000_000);
        }
        other => panic!("not a query: {:?}", other),
    }
    // a value that holds `=` itself
    match read(&["mft", "query", "x", "--drive-pattern=a=b"]).unwrap().action {
        Action::Mft(MftArgs { action: MftAction::Query(args) }) => {
            assert_eq!(args.drive_pattern.to_text(), "a=b");
        }
        other => panic!("not a query: {:?}", other),
    }
}

#[test]
fn values_behind_names_are_held_to_the_same_rules() {
    assert_eq!(read(&["mft", "show", "--threads=4", "-j4"]).unwrap_err(), ParseError::BadArguments);
    assert_eq!(
        read(&["mft", "show", "--threads=4", "--threads", "5"]).unwrap_err(),
        ParseError::BadArguments
    );
    assert_eq!(read(&["mft", "show", "--verbose=1"]).unwrap_err(), ParseError::BadArguments);
    assert_eq!(read(&["mft", "show", "--threadsx"]).unwrap_err(), ParseError::BadArguments);
    assert_eq!(read(&["mft", "show", "--limit=5"]).unwrap_err(), ParseError::BadArguments);
    assert_eq!(read(&["mft", "show", "--threads="]).unwrap_err(), ParseError::InvalidValue);
    assert_eq!(read(&["mft", "show", "-jx"]).unwrap_err(), ParseError::InvalidValue);
    // a short name by itself waits for its value
    assert_eq!(read(&["mft", "show", "-j"]).unwrap_err(), ParseError::BadArguments);
}

#[test]
fn hyphen_by_itself_is_an_argument() {
    match read(&["mft", "summarize", "-"]).unwrap().action {
        Action::Mft(MftArgs { action: MftAction::Summarize(args) }) => {
            assert_eq!(args.mft_file, "-");
        }
        other => panic!("not a summarize: {:?}", other),
    }
    let cli = Cli {
        global_args: GlobalArgs { debug: false },
        action: Action::Mft(MftArgs {
            action: MftAction::Diff(MftDiffArgs {
                file1: "-".to_string(),
                file2: "b.mft".to_string(),
                verbose: true,
                max_diffs: Some(3),
            }),
        }),
    };
    let mut argv = vec!["test-exe".to_string()];
    argv.extend(cli.to_args());
    assert_eq!(format!("{:?}", Cli::try_parse_from(&argv).unwrap()), format!("{:?}", cli));
}

#[test]
fn spans_below_a_millisecond_are_kept() {
    for (written, nanos) in [("1500us", 1_500_000u64), ("1ns", 1), ("2ms 3us 4ns", 2_003_004)] {
        match read(&["mft", "query", "x", "--display-interval", written]).unwrap().action {
            Action::Mft(MftArgs { action: MftAction::Query(args) }) => {
                assert_eq!(args.display_interval, nanos, "{written}");
            }
            other => panic!("not a query: {:?}", other),
        }
    }
    // more nanoseconds than 64 bits hold: some 584 years
    assert_eq!(
        read(&["mft", "query", "x", "--display-interval", "600years"]).unwrap_err(),
        ParseError::InvalidValue
    );
    match read(&["mft", "query", "x", "--display-interval", "584years"]).unwrap().action {
        Action::Mft(MftArgs { action: MftAction::Query(args) }) => {
            assert_eq!(args.display_interval, 584 * 31_557_600 * 1_000_000_000);
        }
        other => panic!("not a query: {:?}", other),
    }
}
