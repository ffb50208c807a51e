//! The overview tab: one row per file.

use vstd::prelude::*;
use vstd::string::*;
use crate::text::decimal;
use crate::text::decimal_string;
use crate::cli::mft_query_action::format_interval;
use crate::cli::mft_query_action::millis_text;
use crate::numbers::in_millis;
use crate::numbers::to_millis;
use crate::text::chars_of;
use crate::text::concat;
use crate::text::flat;
use crate::text::texts;
use crate::to_args::push_string;
use crate::to_args::push_text;
use crate::tui::progress::processed_entries_of;
use crate::tui::progress::total_entries_of;
use crate::tui::progress::MftFileProgress;
use crate::tui::progress::ProgressView;
use crate::tui::tabs::errors_tab::minus;
use crate::tui::tabs::keys::KeyCode;
use crate::tui::tabs::keys::KeyboardResponse;

verus! {

/// The overview tab. It has no state of its own.
#[derive(Clone, Copy, Debug, PartialEq, Eq, Structural)]
pub struct OverviewTab;

/// The first `k` of `digits` as the overview writes them: a digit is
/// preceded by a comma where it is not the first and the number of digits
/// from it to the end is a multiple of three.
pub open spec fn grouped_prefix(digits: Seq<char>, k: int) -> Seq<char>
    decreases k,
{
    if k <= 0 {
        Seq::empty()
    } else if k - 1 > 0 && (digits.len() - (k - 1)) % 3 == 0 {
        grouped_prefix(digits, k - 1) + seq![',', digits[k - 1]]
    } else {
        grouped_prefix(digits, k - 1).push(digits[k - 1])
    }
}

/// A number as the overview writes it: in decimal, with commas between
/// groups of three digits counted from the right.
pub open spec fn number_text(n: u64) -> Seq<char> {
    grouped_prefix(decimal(n as nat), decimal(n as nat).len() as int)
}

impl OverviewTab {
    /// The tab as it opens.
    pub fn new() -> (tab: Self) {
        OverviewTab
    }

    /// Writes `num` in decimal with commas between groups of three digits:
    /// `1234567` becomes `1,234,567`.
    pub fn format_number(num: u64) -> (s: String)
        ensures
            s@ == number_text(num),
    {
        let digits = decimal_string(num);
        let chars = chars_of(digits.as_str());
        let mut result = String::new();
        let n = chars.len();
        let mut i: usize = 0;
        while i < n
            invariant
                i <= n,
                n == chars@.len(),
                result@ == grouped_prefix(chars@, i as int),
            decreases n - i,
        {
            let ghost before = result@;
            if i > 0 && (n - i) % 3 == 0 {
                result.push(',');
                result.push(chars[i]);
                assert(result@ =~= before + seq![',', chars@[i as int]]);
            } else {
                result.push(chars[i]);
            }
            i += 1;
        }
        result
    }

    /// The overview handles no key.
    pub fn on_key(&mut self, key: KeyCode) -> (response: KeyboardResponse)
        ensures
            response == KeyboardResponse::Pass,
    {
        KeyboardResponse::Pass
    }
}

/// How `humansize` writes a number of bytes with decimal units (`1.50 MB`).
pub uninterp spec fn humansize_text(bytes: u64) -> Seq<char>;

/// Writes a number of bytes with `humansize::format_size` and decimal
/// units.
#[verifier::external_body]
pub(crate) fn format_size(bytes: u64) -> (s: String)
    ensures
        s@ == humansize_text(bytes),
{
    humansize::format_size(bytes, humansize::DECIMAL)
}

/// A cell with a rate: the base text, and, once time has passed, the rate
/// and what remains.
#[derive(Debug)]
pub struct RatedCell {
    pub base: String,
    pub rate: Option<String>,
    pub remaining: Option<String>,
}

/// The mathematical value of a [`RatedCell`].
pub struct RatedCellView {
    pub base: Seq<char>,
    pub rate: Option<Seq<char>>,
    pub remaining: Option<Seq<char>>,
}

/// The text of an optional string.
pub open spec fn maybe_text(s: Option<String>) -> Option<Seq<char>> {
    match s {
        Some(s) => Some(s@),
        None => None,
    }
}

impl View for RatedCell {
    type V = RatedCellView;

    open spec fn view(&self) -> RatedCellView {
        RatedCellView {
            base: self.base@,
            rate: maybe_text(self.rate),
            remaining: maybe_text(self.remaining),
        }
    }
}

/// One row of the overview.
#[derive(Debug)]
pub struct OverviewRow {
    pub status: String,
    pub file_name: String,
    pub progress: RatedCell,
    pub entries: RatedCell,
    pub time: String,
    pub eta: String,
}

/// The mathematical value of an [`OverviewRow`].
pub struct OverviewRowView {
    pub status: Seq<char>,
    pub file_name: Seq<char>,
    pub progress: RatedCellView,
    pub entries: RatedCellView,
    pub time: Seq<char>,
    pub eta: Seq<char>,
}

impl View for OverviewRow {
    type V = OverviewRowView;

    open spec fn view(&self) -> OverviewRowView {
        OverviewRowView {
            status: self.status@,
            file_name: self.file_name@,
            progress: self.progress@,
            entries: self.entries@,
            time: self.time@,
            eta: self.eta@,
        }
    }
}

/// `amount` per second, where it took `elapsed_ms` milliseconds: rounded
/// down and cut off at the largest 64-bit value.
pub open spec fn per_second(amount: u64, elapsed_ms: u64) -> u64 {
    if amount * 1000 / (elapsed_ms as int) > u64::MAX {
        u64::MAX
    } else {
        (amount * 1000 / (elapsed_ms as int)) as u64
    }
}

/// What follows the last separator of a path.
pub open spec fn last_component(path: Seq<char>) -> Seq<char>
    decreases path.len(),
{
    if path.len() == 0 {
        Seq::empty()
    } else if path.last() == '\\' || path.last() == '/' {
        Seq::empty()
    } else {
        last_component(path.drop_last()).push(path.last())
    }
}

/// The name of a file in the overview: the last component of its path, and
/// a note where the path has none.
pub open spec fn file_name_text(path: Seq<char>) -> Seq<char> {
    if last_component(path).len() > 0 {
        last_component(path)
    } else {
        flat(seq!["Unknown file \""@, path, "\""@])
    }
}

/// The size of a file as the overview writes it.
pub open spec fn size_or_unknown(total: Option<u64>) -> Seq<char> {
    match total {
        Some(t) => humansize_text(t),
        None => "? bytes"@,
    }
}

/// The progress cell of a file after `elapsed_ms` milliseconds.
pub open spec fn progress_cell(p: ProgressView, elapsed_ms: u64) -> RatedCellView {
    if p.processing_end is Some {
        RatedCellView { base: humansize_text(p.processed_size), rate: None, remaining: None }
    } else {
        let base = flat(seq![humansize_text(p.processed_size), "/"@, size_or_unknown(p.total_size)]);
        if elapsed_ms > 0 {
            RatedCellView {
                base,
                rate: Some(
                    flat(
                        seq![
                            " (+"@,
                            humansize_text(per_second(p.processed_size, elapsed_ms)),
                            "/s)"@,
                        ],
                    ),
                ),
                remaining: match p.total_size {
                    Some(t) => Some(
                        flat(
                            seq![
                                " ("@,
                                humansize_text(minus(t as int, p.processed_size as int) as u64),
                                ")"@,
                            ],
                        ),
                    ),
                    None => None,
                },
            }
        } else {
            RatedCellView { base, rate: None, remaining: None }
        }
    }
}

/// The entries cell of a file after `elapsed_ms` milliseconds.
pub open spec fn entries_cell(p: ProgressView, elapsed_ms: u64) -> RatedCellView {
    match processed_entries_of(p) {
        None => RatedCellView {
            base: if p.processing_end is Some {
                "?"@
            } else {
                "?/?"@
            },
            rate: None,
            remaining: None,
        },
        Some(done) => {
            if p.processing_end is Some {
                RatedCellView { base: number_text(done), rate: None, remaining: None }
            } else {
                let total = total_entries_of(p);
                let base = match total {
                    Some(t) => flat(seq![number_text(done), "/"@, number_text(t)]),
                    None => flat(seq![number_text(done), "/?"@]),
                };
                if elapsed_ms > 0 {
                    RatedCellView {
                        base,
                        rate: Some(
                            flat(seq![" (+"@, number_text(per_second(done, elapsed_ms)), "/s)"@]),
                        ),
                        remaining: match total {
                            Some(t) => Some(
                                flat(
                                    seq![
                                        " ("@,
                                        number_text(minus(t as int, done as int) as u64),
                                        ")"@,
                                    ],
                                ),
                            ),
                            None => None,
                        },
                    }
                } else {
                    RatedCellView { base, rate: None, remaining: None }
                }
            }
        },
    }
}

/// The time that was spent on a file: up to its completion, or up to now.
pub open spec fn time_cell(p: ProgressView, elapsed_ms: u64) -> Seq<char> {
    match p.processing_end {
        Some(end) => millis_text(end),
        None => millis_text(elapsed_ms),
    }
}

/// The estimate of the remaining time, before any note on errors.
pub open spec fn eta_text(p: ProgressView, elapsed_ms: u64) -> Seq<char> {
    if p.processing_end is None && p.total_size is Some {
        if elapsed_ms == 0 {
            "Processing..."@
        } else if per_second(p.processed_size, elapsed_ms) == 0 {
            "Calculating rate..."@
        } else {
            millis_text(
                in_millis(
                    (minus(p.total_size->0 as int, p.processed_size as int) / (per_second(
                        p.processed_size,
                        elapsed_ms,
                    ) as int)) as u64,
                ),
            )
        }
    } else {
        "-"@
    }
}

/// The last cell: the estimate, and the number of errors where there are
/// any.
pub open spec fn eta_cell(p: ProgressView, elapsed_ms: u64) -> Seq<char> {
    if p.errors.len() > 0 {
        flat(
            seq![
                eta_text(p, elapsed_ms),
                " (Errors: "@,
                crate::text::decimal(p.errors.len() as nat),
                ")"@,
            ],
        )
    } else {
        eta_text(p, elapsed_ms)
    }
}

/// The row of a file after `elapsed_ms` milliseconds.
pub open spec fn overview_row(p: ProgressView, elapsed_ms: u64) -> OverviewRowView {
    OverviewRowView {
        status: if p.processing_end is Some {
            "OK"@
        } else {
            "..."@
        },
        file_name: file_name_text(p.path),
        progress: progress_cell(p, elapsed_ms),
        entries: entries_cell(p, elapsed_ms),
        time: time_cell(p, elapsed_ms),
        eta: eta_cell(p, elapsed_ms),
    }
}

fn rate_of(amount: u64, elapsed_ms: u64) -> (r: u64)
    requires
        elapsed_ms > 0,
    ensures
        r == per_second(amount, elapsed_ms),
{
    let scaled: u128 = (amount as u128) * 1000;
    let per: u128 = scaled / (elapsed_ms as u128);
    if per > u64::MAX as u128 {
        u64::MAX
    } else {
        per as u64
    }
}

fn join3(a: String, b: &str, c: String) -> (s: String)
    ensures
        s@ == flat(seq![a@, b@, c@]),
{
    let mut p: Vec<String> = Vec::new();
    assert(texts(p@) =~= Seq::empty());
    push_string(&mut p, a);
    push_text(&mut p, b);
    push_string(&mut p, c);
    assert(texts(p@) =~= seq![a@, b@, c@]);
    concat(&p)
}

fn wrap(before: &str, inner: String, after: &str) -> (s: String)
    ensures
        s@ == flat(seq![before@, inner@, after@]),
{
    let mut p: Vec<String> = Vec::new();
    assert(texts(p@) =~= Seq::empty());
    push_text(&mut p, before);
    push_string(&mut p, inner);
    push_text(&mut p, after);
    assert(texts(p@) =~= seq![before@, inner@, after@]);
    concat(&p)
}

/// The name of a file in the overview.
pub fn file_name_of(path: &str) -> (name: String)
    ensures
        name@ == file_name_text(path@),
{
    let chars = chars_of(path);
    let mut start: usize = 0;
    let mut i: usize = 0;
    assert(path@.take(0) =~= Seq::<char>::empty());
    while i < chars.len()
        invariant
            i <= chars.len(),
            start <= i,
            chars@ == path@,
            last_component(path@.take(i as int)) == path@.subrange(start as int, i as int),
        decreases chars.len() - i,
    {
        proof {
            assert(path@.take(i + 1).drop_last() =~= path@.take(i as int));
            assert(path@.take(i + 1).last() == path@[i as int]);
        }
        if chars[i] == '\\' || chars[i] == '/' {
            start = i + 1;
            assert(path@.subrange(i + 1, i + 1) =~= Seq::<char>::empty());
        } else {
            assert(path@.subrange(start as int, i + 1) =~= path@.subrange(
                start as int,
                i as int,
            ).push(path@[i as int]));
        }
        i += 1;
    }
    assert(path@.take(chars.len() as int) =~= path@);
    if start < chars.len() {
        let mut name = String::new();
        let mut j: usize = start;
        assert(path@.subrange(start as int, start as int) =~= Seq::<char>::empty());
        while j < chars.len()
            invariant
                start <= j <= chars.len(),
                chars@ == path@,
                name@ == path@.subrange(start as int, j as int),
            decreases chars.len() - j,
        {
            name.push(chars[j]);
            assert(path@.subrange(start as int, j + 1) =~= path@.subrange(
                start as int,
                j as int,
            ).push(path@[j as int]));
            j += 1;
        }
        name
    } else {
        wrap("Unknown file \"", String::from_str(path), "\"")
    }
}

impl OverviewTab {
    /// Writes the row of one file. `elapsed_ms` is the time since the
    /// analysis began, in milliseconds.
    pub fn row(file: &MftFileProgress, elapsed_ms: u64) -> (row: OverviewRow)
        ensures
            row@ == overview_row(file@, elapsed_ms),
    {
        let complete = file.processing_end.is_some();
        let status = if complete {
            String::from_str("OK")
        } else {
            String::from_str("...")
        };
        let file_name = file_name_of(file.path.as_str());
        let progress = if complete {
            RatedCell { base: format_size(file.processed_size), rate: None, remaining: None }
        } else {
            let total_text = match file.total_size {
                Some(t) => format_size(t),
                None => String::from_str("? bytes"),
            };
            let base = join3(format_size(file.processed_size), "/", total_text);
            if elapsed_ms > 0 {
                let rate = wrap(
                    " (+",
                    format_size(rate_of(file.processed_size, elapsed_ms)),
                    "/s)",
                );
                let remaining = match file.total_size {
                    Some(t) => Some(
                        wrap(" (", format_size(t.saturating_sub(file.processed_size)), ")"),
                    ),
                    None => None,
                };
                RatedCell { base, rate: Some(rate), remaining }
            } else {
                RatedCell { base, rate: None, remaining: None }
            }
        };
        let entries = match file.processed_entries() {
            None => RatedCell {
                base: if complete {
                    String::from_str("?")
                } else {
                    String::from_str("?/?")
                },
                rate: None,
                remaining: None,
            },
            Some(done) => {
                if complete {
                    RatedCell { base: Self::format_number(done), rate: None, remaining: None }
                } else {
                    let total = file.total_entries();
                    let base = match total {
                        Some(t) => join3(Self::format_number(done), "/", Self::format_number(t)),
                        None => {
                            let mut p: Vec<String> = Vec::new();
                            assert(texts(p@) =~= Seq::empty());
                            push_string(&mut p, Self::format_number(done));
                            push_text(&mut p, "/?");
                            assert(texts(p@) =~= seq![number_text(done), "/?"@]);
                            concat(&p)
                        },
                    };
                    if elapsed_ms > 0 {
                        let rate = wrap(
                            " (+",
                            Self::format_number(rate_of(done, elapsed_ms)),
                            "/s)",
                        );
                        let remaining = match total {
                            Some(t) => Some(
                                wrap(" (", Self::format_number(t.saturating_sub(done)), ")"),
                            ),
                            None => None,
                        };
                        RatedCell { base, rate: Some(rate), remaining }
                    } else {
                        RatedCell { base, rate: None, remaining: None }
                    }
                }
            },
        };
        let time = match file.processing_end {
            Some(end) => format_interval(end),
            None => format_interval(elapsed_ms),
        };
        let estimate = if !complete && file.total_size.is_some() {
            if elapsed_ms == 0 {
                String::from_str("Processing...")
            } else {
                let rate = rate_of(file.processed_size, elapsed_ms);
                if rate == 0 {
                    String::from_str("Calculating rate...")
                } else {
                    let left = file.total_size.unwrap().saturating_sub(file.processed_size);
                    let seconds = left / rate;
                    format_interval(to_millis(seconds))
                }
            }
        } else {
            String::from_str("-")
        };
        let eta = if file.errors.len() > 0 {
            let mut p: Vec<String> = Vec::new();
            assert(texts(p@) =~= Seq::empty());
            push_string(&mut p, estimate);
            push_text(&mut p, " (Errors: ");
            push_string(&mut p, decimal_string(file.errors.len() as u64));
            push_text(&mut p, ")");
            assert(texts(p@) =~= seq![
                eta_text(file@, elapsed_ms),
                " (Errors: "@,
                decimal(file.errors.len() as nat),
                ")"@,
            ]);
            concat(&p)
        } else {
            estimate
        };
        OverviewRow { status, file_name, progress, entries, time, eta }
    }
}

} // verus!
