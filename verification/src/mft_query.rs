//! The search over cached dumps: which dumps are searched, when a preview
//! of the matches is due, and what is written for previews and for the final
//! result. Running the workers, the clock and the output is left to the
//! caller.

use vstd::prelude::*;
use vstd::string::*;
use crate::fuzzy::IndexEntry;
use crate::fuzzy::IndexEntryView;
use crate::text::all_blank;
use crate::text::concat;
use crate::text::decimal;
use crate::text::decimal_string;
use crate::text::flat;
use crate::text::is_all_blank;
use crate::text::texts;
use crate::to_args::push_string;
use crate::to_args::push_text;

verus! {

/// Why a search cannot begin.
#[derive(Clone, Copy, Debug, PartialEq, Eq, Structural)]
pub enum QueryError {
    /// The query holds nothing but blanks.
    EmptyQuery,
    /// None of the matched drives has a cached dump.
    NoCachedFiles,
}

/// The drives among `drives` that have a cached dump: `cached` says of each
/// drive, in order, whether its dump exists.
pub open spec fn cached_drives(drives: Seq<char>, cached: Seq<bool>) -> Seq<char>
    decreases drives.len(),
{
    if drives.len() == 0 {
        Seq::empty()
    } else if drives.len() <= cached.len() && cached[drives.len() - 1] {
        cached_drives(drives.drop_last(), cached).push(drives.last())
    } else {
        cached_drives(drives.drop_last(), cached)
    }
}

/// The dumps to search, or the reason for which there is no search.
pub open spec fn search_targets(query: Seq<char>, drives: Seq<char>, cached: Seq<bool>) -> Result<
    Seq<char>,
    QueryError,
> {
    if all_blank(query) {
        Err(QueryError::EmptyQuery)
    } else if cached_drives(drives, cached).len() == 0 {
        Err(QueryError::NoCachedFiles)
    } else {
        Ok(cached_drives(drives, cached))
    }
}

/// Prepares a search for `query` over the cached dumps of `drives`.
/// `cached` says of each drive, in order, whether its dump exists. Returns
/// the drives whose dumps are searched.
pub fn query_mft_files_fuzzy(query: &str, drives: &Vec<char>, cached: &Vec<bool>) -> (r: Result<
    Vec<char>,
    QueryError,
>)
    ensures
        match search_targets(query@, drives@, cached@) {
            Ok(targets) => r is Ok && r->Ok_0@ == targets,
            Err(e) => r is Err && r->Err_0 == e,
        },
{
    if is_all_blank(query) {
        return Err(QueryError::EmptyQuery);
    }
    let mut targets: Vec<char> = Vec::new();
    let mut i: usize = 0;
    assert(drives@.take(0) =~= Seq::<char>::empty());
    while i < drives.len()
        invariant
            i <= drives.len(),
            targets@ == cached_drives(drives@.take(i as int), cached@),
        decreases drives.len() - i,
    {
        proof {
            assert(drives@.take(i + 1).drop_last() =~= drives@.take(i as int));
            assert(drives@.take(i + 1).last() == drives@[i as int]);
        }
        if i < cached.len() && cached[i] {
            targets.push(drives[i]);
        }
        i += 1;
    }
    assert(drives@.take(drives.len() as int) =~= drives@);
    if targets.len() == 0 {
        Err(QueryError::NoCachedFiles)
    } else {
        Ok(targets)
    }
}

/// What the search loop is to do next.
#[derive(Clone, Copy, Debug, PartialEq, Eq, Structural)]
pub enum QueryStep {
    /// The time is up: go on to the final result.
    TimedOut,
    /// Show a preview; a final one ends the loop.
    Preview { is_final: bool },
    /// Nothing is due.
    Wait,
}

/// The clock of a search. All its times are in one unit, which the caller
/// chooses; the program counts nanoseconds.
#[derive(Clone, Copy, Debug, PartialEq, Eq, Structural)]
pub struct QuerySession {
    pub started: u64,
    /// When the last preview was shown, if one was.
    pub last_display: Option<u64>,
    pub display_interval: u64,
    pub timeout: Option<u64>,
}

/// Whether the time of the search is up at the time `now`.
pub open spec fn timed_out(s: QuerySession, now: u64) -> bool {
    s.timeout is Some && now >= s.started && now - s.started >= s.timeout->0
}

/// Whether a preview is due at the time `now`: at once at first, and then
/// whenever the display interval has passed since the last.
pub open spec fn preview_due(s: QuerySession, now: u64) -> bool {
    match s.last_display {
        None => true,
        Some(last) => now >= last && now - last >= s.display_interval,
    }
}

/// The next step at the time `now`, where `done` says whether the workers
/// have finished.
pub open spec fn next_step(s: QuerySession, now: u64, done: bool) -> (QuerySession, QueryStep) {
    if timed_out(s, now) {
        (s, QueryStep::TimedOut)
    } else if preview_due(s, now) {
        (QuerySession { last_display: Some(now), ..s }, QueryStep::Preview { is_final: done })
    } else {
        (s, QueryStep::Wait)
    }
}

impl QuerySession {
    /// The clock of a search that begins at the time `now`.
    pub fn new(now: u64, display_interval: u64, timeout: Option<u64>) -> (s: Self)
        ensures
            s == (QuerySession { started: now, last_display: None, display_interval, timeout }),
    {
        QuerySession { started: now, last_display: None, display_interval, timeout }
    }

    /// Whether the time of the search is up.
    pub fn is_timed_out(&self, now: u64) -> (b: bool)
        ensures
            b == timed_out(*self, now),
    {
        match self.timeout {
            Some(t) => now >= self.started && now - self.started >= t,
            None => false,
        }
    }

    /// Decides the next step of the loop.
    pub fn poll(&mut self, now: u64, done: bool) -> (step: QueryStep)
        ensures
            (*final(self), step) == next_step(*old(self), now, done),
    {
        if self.is_timed_out(now) {
            return QueryStep::TimedOut;
        }
        let due = match self.last_display {
            None => true,
            Some(last) => now >= last && now - last >= self.display_interval,
        };
        if due {
            self.last_display = Some(now);
            QueryStep::Preview { is_final: done }
        } else {
            QueryStep::Wait
        }
    }
}

/// The first preview is due at once, and after a preview none is due until
/// the interval has passed.
pub proof fn previews_are_spaced(s: QuerySession, now: u64, done: bool, later: u64)
    requires
        !timed_out(s, now),
        preview_due(s, now),
        now <= later,
        later - now < s.display_interval,
    ensures
        next_step(s, now, done).1 == (QueryStep::Preview { is_final: done }),
        !preview_due(next_step(s, now, done).0, later),
{
}

/// The number of matches that a preview or the result shows: as many as
/// there are, up to the limit.
pub open spec fn shown_count(matched: int, limit: int) -> int {
    if matched < limit {
        matched
    } else {
        limit
    }
}

/// The number of matches that a preview or the result shows.
pub fn shown(matched: usize, limit: usize) -> (n: usize)
    ensures
        n == shown_count(matched as int, limit as int),
{
    if matched < limit {
        matched
    } else {
        limit
    }
}

/// The first line of a preview.
pub open spec fn preview_header_text(
    is_final: bool,
    elapsed_ms: u64,
    entries: u64,
    files: u64,
    matched: usize,
) -> Seq<char> {
    flat(
        seq![
            "--- "@,
            if is_final {
                "Final preview"@
            } else {
                "Preview"@
            },
            " ("@,
            decimal(elapsed_ms as nat),
            " ms elapsed, entries processed: "@,
            decimal(entries as nat),
            ", files collected: "@,
            decimal(files as nat),
            ", matches: "@,
            decimal(matched as nat),
            ") ---"@,
        ],
    )
}

/// The lines of a preview: the header, then the best matches or a note that
/// there are none yet, a note on how many more there are, and an empty
/// line.
pub open spec fn preview_text(
    is_final: bool,
    elapsed_ms: u64,
    entries: u64,
    files: u64,
    matched: usize,
    top: Seq<Seq<char>>,
) -> Seq<Seq<char>> {
    let header = seq![preview_header_text(is_final, elapsed_ms, entries, files, matched)];
    let body = if matched == 0 {
        seq!["(no matches yet)"@]
    } else if matched > top.len() {
        top.push(
            flat(seq!["... ("@, decimal((matched - top.len()) as nat), " more preview matches)"@]),
        )
    } else {
        top
    };
    header + body + seq![Seq::<char>::empty()]
}

fn line_of(pieces: &Vec<String>) -> (s: String)
    ensures
        s@ == flat(texts(pieces@)),
{
    concat(pieces)
}

/// Writes the first line of a preview.
pub fn preview_header(is_final: bool, elapsed_ms: u64, entries: u64, files: u64, matched: usize)
    -> (s: String)
    ensures
        s@ == preview_header_text(is_final, elapsed_ms, entries, files, matched),
{
    let mut p: Vec<String> = Vec::new();
    assert(texts(p@) =~= Seq::empty());
    push_text(&mut p, "--- ");
    push_text(
        &mut p,
        if is_final {
            "Final preview"
        } else {
            "Preview"
        },
    );
    push_text(&mut p, " (");
    push_string(&mut p, decimal_string(elapsed_ms));
    push_text(&mut p, " ms elapsed, entries processed: ");
    push_string(&mut p, decimal_string(entries));
    push_text(&mut p, ", files collected: ");
    push_string(&mut p, decimal_string(files));
    push_text(&mut p, ", matches: ");
    push_string(&mut p, decimal_string(matched as u64));
    push_text(&mut p, ") ---");
    assert(texts(p@) =~= seq![
        "--- "@,
        if is_final {
            "Final preview"@
        } else {
            "Preview"@
        },
        " ("@,
        decimal(elapsed_ms as nat),
        " ms elapsed, entries processed: "@,
        decimal(entries as nat),
        ", files collected: "@,
        decimal(files as nat),
        ", matches: "@,
        decimal(matched as nat),
        ") ---"@,
    ]);
    line_of(&p)
}

/// Writes a preview. `top` holds the paths of the best matches that are
/// shown.
pub fn preview_lines(
    is_final: bool,
    elapsed_ms: u64,
    entries: u64,
    files: u64,
    matched: usize,
    top: Vec<String>,
) -> (lines: Vec<String>)
    ensures
        texts(lines@) == preview_text(is_final, elapsed_ms, entries, files, matched, texts(top@)),
{
    let ghost shown_paths = texts(top@);
    let shown_len = top.len();
    let mut lines: Vec<String> = Vec::new();
    assert(texts(lines@) =~= Seq::empty());
    push_string(&mut lines, preview_header(is_final, elapsed_ms, entries, files, matched));
    let ghost header = texts(lines@);
    assert(header =~= seq![preview_header_text(is_final, elapsed_ms, entries, files, matched)]);
    if matched == 0 {
        push_text(&mut lines, "(no matches yet)");
        assert(texts(lines@) =~= header + seq!["(no matches yet)"@]);
    } else {
        crate::to_args::push_all(&mut lines, top);
        if matched > shown_len {
            let mut p: Vec<String> = Vec::new();
            assert(texts(p@) =~= Seq::empty());
            push_text(&mut p, "... (");
            push_string(&mut p, decimal_string((matched - shown_len) as u64));
            push_text(&mut p, " more preview matches)");
            assert(texts(p@) =~= seq![
                "... ("@,
                decimal((matched - shown_len) as nat),
                " more preview matches)"@,
            ]);
            let more = line_of(&p);
            push_string(&mut lines, more);
            assert(texts(lines@) =~= header + shown_paths.push(more@));
        }
    }
    let ghost before = texts(lines@);
    push_string(&mut lines, String::new());
    assert(texts(lines@) =~= before + seq![Seq::<char>::empty()]);
    lines
}

/// How `chrono` writes the time `seconds` after the Unix epoch as
/// `YYYY-MM-DD hh:mm:ss` in UTC, where it can represent that time.
pub uninterp spec fn timestamp_text(seconds: i64) -> Option<Seq<char>>;

/// Writes a time with `chrono::DateTime::from_timestamp` and
/// `chrono::DateTime::format`. Times that `chrono` cannot represent give
/// nothing.
#[verifier::external_body]
fn format_timestamp(seconds: i64) -> (s: Option<String>)
    ensures
        match timestamp_text(seconds) {
            Some(text) => s is Some && s->0@ == text,
            None => s is None,
        },
{
    let time = chrono::DateTime::from_timestamp(seconds, 0)?;
    Some(time.format("%Y-%m-%d %H:%M:%S").to_string())
}

/// A time as the result shows it: the date and time, or `N/A` where the
/// time is not known or cannot be written.
pub open spec fn time_text(time: Option<i64>) -> Seq<char> {
    match time {
        Some(seconds) => match timestamp_text(seconds) {
            Some(text) => text,
            None => "N/A"@,
        },
        None => "N/A"@,
    }
}

/// Writes a time as the result shows it.
pub fn time_string(time: Option<i64>) -> (s: String)
    ensures
        s@ == time_text(time),
{
    match time {
        Some(seconds) => match format_timestamp(seconds) {
            Some(text) => text,
            None => String::from_str("N/A"),
        },
        None => String::from_str("N/A"),
    }
}

/// The lines of one result: its path, its three times, and an empty line.
pub open spec fn entry_text(e: IndexEntryView) -> Seq<Seq<char>> {
    seq![
        e.path,
        flat(seq!["  Created:  "@, time_text(e.created), " UTC"@]),
        flat(seq!["  Modified: "@, time_text(e.modified), " UTC"@]),
        flat(seq!["  Accessed: "@, time_text(e.accessed), " UTC"@]),
        Seq::<char>::empty(),
    ]
}

fn labelled_time(label: &str, time: Option<i64>) -> (s: String)
    ensures
        s@ == flat(seq![label@, time_text(time), " UTC"@]),
{
    let mut p: Vec<String> = Vec::new();
    assert(texts(p@) =~= Seq::empty());
    push_text(&mut p, label);
    push_string(&mut p, time_string(time));
    push_text(&mut p, " UTC");
    assert(texts(p@) =~= seq![label@, time_text(time), " UTC"@]);
    line_of(&p)
}

/// Writes the lines of one result.
pub fn entry_lines(entry: &IndexEntry) -> (lines: Vec<String>)
    ensures
        texts(lines@) == entry_text(entry@),
{
    let mut lines: Vec<String> = Vec::new();
    assert(texts(lines@) =~= Seq::empty());
    push_string(&mut lines, entry.path.clone());
    push_string(&mut lines, labelled_time("  Created:  ", entry.created));
    push_string(&mut lines, labelled_time("  Modified: ", entry.modified));
    push_string(&mut lines, labelled_time("  Accessed: ", entry.accessed));
    push_string(&mut lines, String::new());
    assert(texts(lines@) =~= entry_text(entry@));
    lines
}

/// The values of a list of entries.
pub open spec fn entry_views(entries: Seq<IndexEntry>) -> Seq<IndexEntryView> {
    entries.map_values(|e: IndexEntry| e@)
}

/// The lines of the first `n` results.
pub open spec fn results_text(entries: Seq<IndexEntryView>, n: int) -> Seq<Seq<char>>
    decreases n,
{
    if n <= 0 {
        Seq::empty()
    } else {
        results_text(entries, n - 1) + entry_text(entries[n - 1])
    }
}

/// The first lines of the result where nothing matches.
pub open spec fn nothing_found_text(query: Seq<char>, files: u64, entries: u64) -> Seq<Seq<char>> {
    seq![
        flat(seq!["No files found matching the search query '"@, query, "'"@]),
        flat(
            seq![
                "Searched "@,
                decimal(files as nat),
                " files ("@,
                decimal(entries as nat),
                " entries) total."@,
            ],
        ),
    ]
}

/// The lines of the final result. `results` are the matches that are
/// shown, best first: as many as there are, up to the limit.
pub open spec fn report_text(
    query: Seq<char>,
    limit: usize,
    matched: usize,
    files: u64,
    entries: u64,
    drives: usize,
    results: Seq<IndexEntryView>,
    timed_out_after: Option<u64>,
) -> Seq<Seq<char>> {
    if matched == 0 {
        nothing_found_text(query, files, entries)
    } else {
        let head = seq![
            flat(
                seq![
                    "Found "@,
                    decimal(matched as nat),
                    " matching files (processed "@,
                    decimal(files as nat),
                    " files / "@,
                    decimal(entries as nat),
                    " entries across "@,
                    decimal(drives as nat),
                    " drives):"@,
                ],
            ),
            Seq::<char>::empty(),
        ];
        let listed = results_text(results, results.len() as int);
        let more = if matched > limit {
            seq![
                Seq::<char>::empty(),
                flat(
                    seq![
                        "... and "@,
                        decimal((matched - limit) as nat),
                        " more results (showing first "@,
                        decimal(limit as nat),
                        " due to limit)"@,
                    ],
                ),
            ]
        } else {
            Seq::empty()
        };
        let total = seq![
            Seq::<char>::empty(),
            flat(
                seq![
                    "Found "@,
                    decimal(matched as nat),
                    " files matching '"@,
                    query,
                    "' (limit: "@,
                    decimal(limit as nat),
                    ")"@,
                ],
            ),
        ];
        let timeout = match timed_out_after {
            Some(ms) => seq![flat(seq!["Timeout reached after "@, decimal(ms as nat), " ms"@])],
            None => Seq::empty(),
        };
        head + listed + more + total + timeout
    }
}

/// Writes the final result.
pub fn report_lines(
    query: &str,
    limit: usize,
    matched: usize,
    files: u64,
    entries: u64,
    drives: usize,
    results: &Vec<IndexEntry>,
    timed_out_after: Option<u64>,
) -> (lines: Vec<String>)
    ensures
        texts(lines@) == report_text(
            query@,
            limit,
            matched,
            files,
            entries,
            drives,
            entry_views(results@),
            timed_out_after,
        ),
{
    let mut lines: Vec<String> = Vec::new();
    assert(texts(lines@) =~= Seq::empty());
    if matched == 0 {
        let mut p: Vec<String> = Vec::new();
        assert(texts(p@) =~= Seq::empty());
        push_text(&mut p, "No files found matching the search query '");
        push_text(&mut p, query);
        push_text(&mut p, "'");
        assert(texts(p@) =~= seq!["No files found matching the search query '"@, query@, "'"@]);
        push_string(&mut lines, line_of(&p));
        let mut q: Vec<String> = Vec::new();
        assert(texts(q@) =~= Seq::empty());
        push_text(&mut q, "Searched ");
        push_string(&mut q, decimal_string(files));
        push_text(&mut q, " files (");
        push_string(&mut q, decimal_string(entries));
        push_text(&mut q, " entries) total.");
        assert(texts(q@) =~= seq![
            "Searched "@,
            decimal(files as nat),
            " files ("@,
            decimal(entries as nat),
            " entries) total."@,
        ]);
        push_string(&mut lines, line_of(&q));
        assert(texts(lines@) =~= nothing_found_text(query@, files, entries));
        return lines;
    }
    let mut p: Vec<String> = Vec::new();
    assert(texts(p@) =~= Seq::empty());
    push_text(&mut p, "Found ");
    push_string(&mut p, decimal_string(matched as u64));
    push_text(&mut p, " matching files (processed ");
    push_string(&mut p, decimal_string(files));
    push_text(&mut p, " files / ");
    push_string(&mut p, decimal_string(entries));
    push_text(&mut p, " entries across ");
    push_string(&mut p, decimal_string(drives as u64));
    push_text(&mut p, " drives):");
    assert(texts(p@) =~= seq![
        "Found "@,
        decimal(matched as nat),
        " matching files (processed "@,
        decimal(files as nat),
        " files / "@,
        decimal(entries as nat),
        " entries across "@,
        decimal(drives as nat),
        " drives):"@,
    ]);
    push_string(&mut lines, line_of(&p));
    push_string(&mut lines, String::new());
    let ghost head = texts(lines@);
    let ghost views = entry_views(results@);
    let mut i: usize = 0;
    assert(head + results_text(views, 0) =~= head);
    while i < results.len()
        invariant
            i <= results.len(),
            views == entry_views(results@),
            texts(lines@) == head + results_text(views, i as int),
        decreases results.len() - i,
    {
        let ghost before = texts(lines@);
        crate::to_args::push_all(&mut lines, entry_lines(&results[i]));
        assert(views[i as int] == results@[i as int]@);
        assert(head + results_text(views, i + 1) =~= before + entry_text(views[i as int]));
        i += 1;
    }
    let ghost listed = texts(lines@);
    if matched > limit {
        push_string(&mut lines, String::new());
        let mut q: Vec<String> = Vec::new();
        assert(texts(q@) =~= Seq::empty());
        push_text(&mut q, "... and ");
        push_string(&mut q, decimal_string((matched - limit) as u64));
        push_text(&mut q, " more results (showing first ");
        push_string(&mut q, decimal_string(limit as u64));
        push_text(&mut q, " due to limit)");
        assert(texts(q@) =~= seq![
            "... and "@,
            decimal((matched - limit) as nat),
            " more results (showing first "@,
            decimal(limit as nat),
            " due to limit)"@,
        ]);
        let more = line_of(&q);
        push_string(&mut lines, more);
        assert(texts(lines@) =~= listed + seq![Seq::<char>::empty(), more@]);
    } else {
        assert(texts(lines@) =~= listed + Seq::<Seq<char>>::empty());
    }
    let ghost with_more = texts(lines@);
    push_string(&mut lines, String::new());
    let mut t: Vec<String> = Vec::new();
    assert(texts(t@) =~= Seq::empty());
    push_text(&mut t, "Found ");
    push_string(&mut t, decimal_string(matched as u64));
    push_text(&mut t, " files matching '");
    push_text(&mut t, query);
    push_text(&mut t, "' (limit: ");
    push_string(&mut t, decimal_string(limit as u64));
    push_text(&mut t, ")");
    assert(texts(t@) =~= seq![
        "Found "@,
        decimal(matched as nat),
        " files matching '"@,
        query@,
        "' (limit: "@,
        decimal(limit as nat),
        ")"@,
    ]);
    let total = line_of(&t);
    push_string(&mut lines, total);
    assert(texts(lines@) =~= with_more + seq![Seq::<char>::empty(), total@]);
    let ghost with_total = texts(lines@);
    match timed_out_after {
        Some(ms) => {
            let mut u: Vec<String> = Vec::new();
            assert(texts(u@) =~= Seq::empty());
            push_text(&mut u, "Timeout reached after ");
            push_string(&mut u, decimal_string(ms));
            push_text(&mut u, " ms");
            assert(texts(u@) =~= seq!["Timeout reached after "@, decimal(ms as nat), " ms"@]);
            let line = line_of(&u);
            push_string(&mut lines, line);
            assert(texts(lines@) =~= with_total + seq![line@]);
        },
        None => {
            assert(texts(lines@) =~= with_total + Seq::<Seq<char>>::empty());
        },
    }
    lines
}

} // verus!
