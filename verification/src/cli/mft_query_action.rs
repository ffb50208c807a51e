//! The `mft query` command.

use std::time::Duration;
use vstd::prelude::*;
use vstd::string::*;
use crate::cli::command::Command;
use crate::cli::command::CommandView;
use crate::cli::drive_letter_pattern::DriveLetterPattern;
use crate::cli::error::CliError;
use crate::text::all_blank;
use crate::text::chars_of;
use crate::text::decimal;
use crate::text::decimal_string;
use crate::text::is_all_blank;
use crate::text::texts;
use crate::to_args::push_string;
use crate::to_args::push_text;
use crate::to_args::ToArgs;

verus! {

/// Number of results shown where no limit is given.
pub const DEFAULT_LIMIT: usize = 100;

/// Nanoseconds between two previews where no interval is given: a second.
pub const DEFAULT_DISPLAY_INTERVAL: u64 = 1_000_000_000;

/// Nanoseconds in a second.
pub const NANOS_PER_SECOND: u32 = 1_000_000_000;

/// Nanoseconds in a millisecond.
pub const NANOS_PER_MILLI: u64 = 1_000_000;

/// The seconds of ten thousand million years of 365.25 days: a span below
/// this is written with a number of years of no more than ten digits.
pub const MODERATE_SECONDS: u64 = 315_576_000_000_000_000;

/// Number of matches in a preview where none is given.
pub const DEFAULT_TOP: usize = 10;

/// Arguments for searching the cached dumps of the matched drives.
#[derive(Debug)]
pub struct MftQueryArgs {
    /// Drive letter pattern that selects the cached dumps.
    pub drive_pattern: DriveLetterPattern,
    /// Search query.
    pub query: String,
    /// Maximum number of results to display.
    pub limit: usize,
    /// Nanoseconds between two previews of the top results.
    pub display_interval: u64,
    /// Number of top matches in each preview.
    pub top_n: usize,
}

/// The most numbers that a text may hold to be read as a span of time.
pub const MAX_NUMBERS: usize = 10;

/// The most digits that a number may have in such a text.
pub const MAX_DIGITS: usize = 10;

/// Whether `c` is a decimal digit.
pub open spec fn is_digit(c: char) -> bool {
    '0' <= c && c <= '9'
}

/// Whether `c` ends a number in a span of time: a letter or the micro sign,
/// which begin a unit, and the point, behind which a fraction begins.
/// Blanks do not: digits on both sides of a blank are read as one number.
pub open spec fn ends_number(c: char) -> bool {
    ('a' <= c && c <= 'z') || ('A' <= c && c <= 'Z') || c == '\u{b5}' || c == '.'
}

/// The number of digits of the number that `text` ends in.
pub open spec fn digits_at_end(text: Seq<char>) -> nat
    decreases text.len(),
{
    if text.len() == 0 || ends_number(text.last()) {
        0
    } else if is_digit(text.last()) {
        digits_at_end(text.drop_last()) + 1
    } else {
        digits_at_end(text.drop_last())
    }
}

/// The number of numbers in `text`.
pub open spec fn numbers_in(text: Seq<char>) -> nat
    decreases text.len(),
{
    if text.len() == 0 {
        0
    } else if is_digit(text.last()) && digits_at_end(text.drop_last()) == 0 {
        numbers_in(text.drop_last()) + 1
    } else {
        numbers_in(text.drop_last())
    }
}

/// The number of digits of the longest number in `text`.
pub open spec fn longest_number(text: Seq<char>) -> nat
    decreases text.len(),
{
    if text.len() == 0 {
        0
    } else if digits_at_end(text) > longest_number(text.drop_last()) {
        digits_at_end(text)
    } else {
        longest_number(text.drop_last())
    }
}

/// Whether `text` is read as a span of time at all: it holds no more than
/// ten numbers of no more than ten digits each. The sum of such numbers, in
/// whatever units, stays far below what 64 bits hold of seconds.
pub open spec fn moderate(text: Seq<char>) -> bool {
    numbers_in(text) <= MAX_NUMBERS && longest_number(text) <= MAX_DIGITS
}

/// Tells whether a text is read as a span of time at all.
pub fn is_moderate(text: &str) -> (b: bool)
    ensures
        b == moderate(text@),
{
    let chars = chars_of(text);
    let mut current: usize = 0;
    let mut numbers: usize = 0;
    let mut longest: usize = 0;
    let mut i: usize = 0;
    assert(text@.take(0) =~= Seq::<char>::empty());
    while i < chars.len()
        invariant
            i <= chars.len(),
            chars@ == text@,
            current == digits_at_end(text@.take(i as int)),
            numbers == numbers_in(text@.take(i as int)),
            longest == longest_number(text@.take(i as int)),
            current <= i,
            numbers <= i,
            longest <= i,
        decreases chars.len() - i,
    {
        proof {
            assert(text@.take(i + 1).drop_last() =~= text@.take(i as int));
            assert(text@.take(i + 1).last() == text@[i as int]);
        }
        let c = chars[i];
        if ('a' <= c && c <= 'z') || ('A' <= c && c <= 'Z') || c == '\u{b5}' || c == '.' {
            current = 0;
        } else if '0' <= c && c <= '9' {
            if current == 0 {
                numbers += 1;
            }
            current += 1;
        }
        if current > longest {
            longest = current;
        }
        i += 1;
    }
    assert(text@.take(chars.len() as int) =~= text@);
    numbers <= MAX_NUMBERS && longest <= MAX_DIGITS
}

/// How `humantime` writes a span of the given number of nanoseconds.
pub uninterp spec fn humantime_text(nanos: nat) -> Seq<char>;

/// The span of time that `humantime` reads from a text, in nanoseconds;
/// nothing where it reads none.
pub uninterp spec fn humantime_nanos(text: Seq<char>) -> Option<nat>;

/// A span of seconds and nanoseconds, in nanoseconds.
pub open spec fn span_nanos(secs: u64, nanos: u32) -> nat {
    secs as nat * 1_000_000_000 + nanos as nat
}

/// A span of time as whole seconds and the nanoseconds above them.
#[derive(Clone, Copy, Debug, PartialEq, Eq, Structural)]
pub struct TimeSpan {
    pub secs: u64,
    /// Less than a second.
    pub nanos: u32,
}

/// Writes a span of time with `humantime::format_duration`, in the form
/// that the command line reads back (`1s`, `500ms`, `1m 30s`). The crate
/// documents that `humantime::parse_duration` reads the same span from what
/// was written. It writes at most one number for each of years, months,
/// days, hours, minutes, seconds, milliseconds, microseconds and
/// nanoseconds, each behind a unit; the number of years is the seconds over
/// 31 557 600, and no other number has more than three digits.
#[verifier::external_body]
pub(crate) fn format_span(secs: u64, nanos: u32) -> (s: String)
    requires
        nanos < NANOS_PER_SECOND,
    ensures
        s@ == humantime_text(span_nanos(secs, nanos)),
        humantime_nanos(s@) == Some(span_nanos(secs, nanos)),
        secs < MODERATE_SECONDS ==> moderate(s@),
{
    humantime::format_duration(Duration::new(secs, nanos)).to_string()
}

/// Reads a span of time with `humantime::parse_duration`. That function
/// panics where the seconds of the span reach the largest 64 bit number and
/// a full second of nanoseconds comes on top. It reads the digits between
/// two units as one number, blanks or not, and counts a year as 31 557 600
/// seconds, its largest unit: ten numbers of ten digits each stay below
/// 3.2e18 seconds, so no text that is admitted here gets there.
#[verifier::external_body]
pub(crate) fn parse_span(text: &str) -> (r: Option<TimeSpan>)
    requires
        moderate(text@),
    ensures
        match r {
            Some(span) => span.nanos < NANOS_PER_SECOND && humantime_nanos(text@) == Some(
                span_nanos(span.secs, span.nanos),
            ),
            None => humantime_nanos(text@) is None,
        },
{
    match humantime::parse_duration(text) {
        Ok(span) => Some(TimeSpan { secs: span.as_secs(), nanos: span.subsec_nanos() }),
        Err(_) => None,
    }
}

/// How a span of the given number of milliseconds is written.
pub open spec fn millis_text(millis: u64) -> Seq<char> {
    humantime_text(millis as nat * 1_000_000)
}

/// Writes a span of milliseconds.
pub fn format_interval(millis: u64) -> (s: String)
    ensures
        s@ == millis_text(millis),
{
    let secs = millis / 1000;
    let rest = millis % 1000;
    let nanos = (rest * NANOS_PER_MILLI) as u32;
    assert(span_nanos(secs, nanos) == millis as nat * 1_000_000) by {
        assert(millis == secs * 1000 + rest);
        assert((secs * 1000 + rest) * 1_000_000 == secs * 1_000_000_000 + rest * 1_000_000)
            by (nonlinear_arith);
    }
    format_span(secs, nanos)
}

/// Writes a span of nanoseconds. What is written is read back as the same
/// span.
pub fn format_nanos(nanos: u64) -> (s: String)
    ensures
        s@ == humantime_text(nanos as nat),
        humantime_nanos(s@) == Some(nanos as nat),
        moderate(s@),
{
    let secs = nanos / 1_000_000_000;
    let rest = (nanos % 1_000_000_000) as u32;
    format_span(secs, rest)
}

/// The span of time that a text writes, in nanoseconds, as far as 64 bits
/// hold it: up to some 584 years.
pub open spec fn nanos_read(text: Seq<char>) -> Option<u64> {
    match humantime_nanos(text) {
        Some(nanos) => if nanos <= u64::MAX {
            Some(nanos as u64)
        } else {
            None
        },
        None => None,
    }
}

/// Reads a span of time in nanoseconds.
pub fn parse_nanos(text: &str) -> (r: Option<u64>)
    requires
        moderate(text@),
    ensures
        r == nanos_read(text@),
{
    match parse_span(text) {
        Some(span) => {
            let total: u128 = (span.secs as u128) * 1_000_000_000 + (span.nanos as u128);
            if total > u64::MAX as u128 {
                None
            } else {
                Some(total as u64)
            }
        },
        None => None,
    }
}

impl MftQueryArgs {
    /// The request that the arguments stand for: a search, unless the query
    /// holds nothing but blanks.
    pub open spec fn command(&self) -> Result<CommandView, CliError> {
        if all_blank(self.query@) {
            Err(CliError::EmptyQuery)
        } else {
            Ok(self.request())
        }
    }

    /// Whether the span of time of the search is read back from what is
    /// written of it.
    pub open spec fn interval_reads_back(&self) -> bool {
        humantime_nanos(humantime_text(self.display_interval as nat)) == Some(
            self.display_interval as nat,
        ) && moderate(humantime_text(self.display_interval as nat))
    }

    /// The search as it was written, whatever its query holds.
    pub open spec fn request(&self) -> CommandView {
        CommandView::MftQuery {
            drive_pattern: self.drive_pattern.text(),
            query: self.query@,
            limit: self.limit,
            display_interval: self.display_interval,
            top_n: self.top_n,
        }
    }

    /// Turns the arguments into the request to carry out.
    pub fn run(self) -> (r: Result<Command, CliError>)
        ensures
            match self.command() {
                Ok(c) => r is Ok && r->Ok_0@ == c,
                Err(e) => r is Err && r->Err_0 == e,
            },
    {
        if is_all_blank(self.query.as_str()) {
            return Err(CliError::EmptyQuery);
        }
        Ok(
            Command::MftQuery {
                drive_pattern: self.drive_pattern.0,
                query: self.query,
                limit: self.limit,
                display_interval: self.display_interval,
                top_n: self.top_n,
            },
        )
    }
}

/// The arguments of a search. The values that equal their default are left
/// out.
pub open spec fn query_arg_texts(
    drive_pattern: Seq<char>,
    query: Seq<char>,
    limit: usize,
    interval_text: Seq<char>,
    interval_is_default: bool,
    top_n: usize,
) -> Seq<Seq<char>> {
    let head = seq!["--drive-pattern"@, drive_pattern, query];
    let with_limit = if limit != DEFAULT_LIMIT {
        head.push("--limit"@).push(decimal(limit as nat))
    } else {
        head
    };
    let with_interval = if !interval_is_default {
        with_limit.push("--display-interval"@).push(interval_text)
    } else {
        with_limit
    };
    if top_n != DEFAULT_TOP {
        with_interval.push("--top"@).push(decimal(top_n as nat))
    } else {
        with_interval
    }
}

/// Writes the arguments of a search, given the text of its interval.
pub fn write_query_args(args: &MftQueryArgs, interval_text: String) -> (out: Vec<String>)
    ensures
        texts(out@) == query_arg_texts(
            args.drive_pattern.text(),
            args.query@,
            args.limit,
            interval_text@,
            args.display_interval == DEFAULT_DISPLAY_INTERVAL,
            args.top_n,
        ),
{
    let mut out: Vec<String> = Vec::new();
    assert(texts(out@) =~= Seq::empty());
    push_text(&mut out, "--drive-pattern");
    push_string(&mut out, args.drive_pattern.to_text());
    push_string(&mut out, args.query.clone());
    assert(texts(out@) =~= seq!["--drive-pattern"@, args.drive_pattern.text(), args.query@]);
    if args.limit != DEFAULT_LIMIT {
        push_text(&mut out, "--limit");
        push_string(&mut out, decimal_string(args.limit as u64));
    }
    if args.display_interval != DEFAULT_DISPLAY_INTERVAL {
        push_text(&mut out, "--display-interval");
        push_string(&mut out, interval_text);
    }
    if args.top_n != DEFAULT_TOP {
        push_text(&mut out, "--top");
        push_string(&mut out, decimal_string(args.top_n as u64));
    }
    out
}

impl ToArgs for MftQueryArgs {
    open spec fn arg_texts(&self) -> Seq<Seq<char>> {
        query_arg_texts(
            self.drive_pattern.text(),
            self.query@,
            self.limit,
            humantime_text(self.display_interval as nat),
            self.display_interval == DEFAULT_DISPLAY_INTERVAL,
            self.top_n,
        )
    }

    fn to_args(&self) -> (args: Vec<String>)
        ensures
            self.interval_reads_back(),
    {
        write_query_args(self, format_nanos(self.display_interval))
    }
}

} // verus!
