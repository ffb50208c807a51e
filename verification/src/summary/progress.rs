//! Running statistics over the records of one dump.

use vstd::prelude::*;
use vstd::string::*;
use crate::text::texts;
use crate::tui::tabs::errors_tab::minus;

verus! {

/// Number of sample names that are kept.
pub const SAMPLE_LIMIT: usize = 20;

/// After so many records the rate is worked out anew.
pub const RATE_INTERVAL: usize = 100;

/// What went wrong.
#[derive(Clone, Copy, Debug, PartialEq, Eq, Structural)]
pub enum ErrorKind {
    /// An attribute could not be read.
    Attribute,
    /// A record could not be read.
    Entry,
    /// The analysis cannot go on.
    Critical,
    /// Anything else.
    Other,
}

/// An error of the analysis.
#[derive(Debug)]
pub struct SummaryError {
    pub kind: ErrorKind,
    pub message: String,
}

/// The mathematical value of a [`SummaryError`].
pub struct SummaryErrorView {
    pub kind: ErrorKind,
    pub message: Seq<char>,
}

impl View for SummaryError {
    type V = SummaryErrorView;

    open spec fn view(&self) -> SummaryErrorView {
        SummaryErrorView { kind: self.kind, message: self.message@ }
    }
}

/// The values of a list of errors.
pub open spec fn error_views(errors: Seq<SummaryError>) -> Seq<SummaryErrorView> {
    errors.map_values(|e: SummaryError| e@)
}

/// The tag that an error of a kind is shown with.
pub open spec fn tag_text(kind: ErrorKind) -> Seq<char> {
    match kind {
        ErrorKind::Attribute => "[ATTR] "@,
        ErrorKind::Entry => "[ENTRY] "@,
        ErrorKind::Critical => "[CRITICAL] "@,
        ErrorKind::Other => "[ERROR] "@,
    }
}

/// The lower case form of an ASCII letter; any other character as it is.
pub open spec fn lower(c: char) -> char {
    if 'A' <= c && c <= 'Z' {
        ((c as u8) + 32) as char
    } else {
        c
    }
}

/// Whether `text` is `word` but for the case of its ASCII letters.
pub open spec fn is_word(text: Seq<char>, word: Seq<char>) -> bool {
    text.len() == word.len() && forall|i: int|
        0 <= i < text.len() ==> lower(#[trigger] text[i]) == word[i]
}

/// The kind that a type name stands for: `attribute`, `entry` and `critical`
/// in any case name their kinds, anything else is an error of no special
/// kind.
pub open spec fn kind_of(error_type: Seq<char>) -> ErrorKind {
    if is_word(error_type, "attribute"@) {
        ErrorKind::Attribute
    } else if is_word(error_type, "entry"@) {
        ErrorKind::Entry
    } else if is_word(error_type, "critical"@) {
        ErrorKind::Critical
    } else {
        ErrorKind::Other
    }
}

fn matches_word(text: &Vec<char>, word: &str) -> (b: bool)
    ensures
        b == is_word(text@, word@),
{
    let letters = crate::text::chars_of(word);
    if text.len() != letters.len() {
        return false;
    }
    let mut i: usize = 0;
    while i < text.len()
        invariant
            i <= text.len(),
            text@.len() == letters@.len(),
            letters@ == word@,
            forall|j: int| 0 <= j < i ==> lower(#[trigger] text@[j]) == word@[j],
        decreases text.len() - i,
    {
        let c = text[i];
        let l = if 'A' <= c && c <= 'Z' {
            ((c as u8) + 32) as char
        } else {
            c
        };
        if l != letters[i] {
            assert(lower(text@[i as int]) != word@[i as int]);
            return false;
        }
        i += 1;
    }
    true
}

impl SummaryError {
    /// The error as it is shown: its tag and its message.
    pub open spec fn tagged(&self) -> Seq<char> {
        tag_text(self.kind) + self.message@
    }

    /// The error as it is shown: its tag and its message.
    pub fn tagged_text(&self) -> (s: String)
        ensures
            s@ == self.tagged(),
    {
        let tag = match self.kind {
            ErrorKind::Attribute => "[ATTR] ",
            ErrorKind::Entry => "[ENTRY] ",
            ErrorKind::Critical => "[CRITICAL] ",
            ErrorKind::Other => "[ERROR] ",
        };
        let mut s = String::from_str(tag);
        s.append(self.message.as_str());
        s
    }
}

/// How often an attribute type came first in a record.
#[derive(Clone, Copy, Debug, PartialEq, Eq, Structural)]
pub struct AttributeCount {
    pub type_code: u32,
    pub count: usize,
}

/// A progress event of the analysis.
#[derive(Debug)]
pub enum ProgressMessage {
    /// One record was worked off.
    EntryProcessed { is_valid: bool, filename_found: Option<String>, attribute_type: Option<u32> },
    /// So many records are expected.
    EstimatedTotal(usize),
    /// The analysis is over.
    Complete,
    /// The analysis failed.
    Error(SummaryError),
    /// A record or an attribute could not be read; the analysis goes on.
    ParseError(SummaryError),
}

/// The mathematical value of a [`ProgressMessage`].
pub enum ProgressMessageView {
    EntryProcessed {
        is_valid: bool,
        filename_found: Option<Seq<char>>,
        attribute_type: Option<u32>,
    },
    EstimatedTotal(usize),
    Complete,
    Error(SummaryErrorView),
    ParseError(SummaryErrorView),
}

impl View for ProgressMessage {
    type V = ProgressMessageView;

    open spec fn view(&self) -> ProgressMessageView {
        match self {
            ProgressMessage::EntryProcessed { is_valid, filename_found, attribute_type } => {
                ProgressMessageView::EntryProcessed {
                    is_valid: *is_valid,
                    filename_found: match filename_found {
                        Some(s) => Some(s@),
                        None => None,
                    },
                    attribute_type: *attribute_type,
                }
            },
            ProgressMessage::EstimatedTotal(n) => ProgressMessageView::EstimatedTotal(*n),
            ProgressMessage::Complete => ProgressMessageView::Complete,
            ProgressMessage::Error(e) => ProgressMessageView::Error(e@),
            ProgressMessage::ParseError(e) => ProgressMessageView::ParseError(e@),
        }
    }
}

/// The values of a sequence of messages.
pub open spec fn progress_message_views(messages: Seq<ProgressMessage>) -> Seq<
    ProgressMessageView,
> {
    messages.map_values(|m: ProgressMessage| m@)
}

/// The statistics of an analysis.
#[derive(Debug)]
pub struct AnalysisProgress {
    pub total_entries: usize,
    pub valid_entries: usize,
    pub error_entries: usize,
    /// For each attribute type that came first in a record, how often it
    /// did, in the order in which the types appeared.
    pub attribute_counts: Vec<AttributeCount>,
    pub filename_entries: usize,
    /// The first names found, up to `SAMPLE_LIMIT`.
    pub sample_paths: Vec<String>,
    /// One health bit per record.
    pub entry_statuses: Vec<bool>,
    pub is_complete: bool,
    /// Milliseconds on the caller's clock when the analysis began.
    pub start_time: u64,
    pub completion_time: Option<u64>,
    pub last_update: u64,
    /// Records per second, rounded down.
    pub entries_per_second: u64,
    pub estimated_total: Option<usize>,
    /// Seconds until the end, rounded down.
    pub eta_seconds: Option<u64>,
    pub errors: Vec<SummaryError>,
    pub critical_errors: usize,
    pub entry_errors: usize,
    pub attr_errors: usize,
}

/// The mathematical value of an [`AnalysisProgress`].
pub struct AnalysisModel {
    pub total_entries: usize,
    pub valid_entries: usize,
    pub error_entries: usize,
    pub attribute_counts: Seq<AttributeCount>,
    pub filename_entries: usize,
    pub sample_paths: Seq<Seq<char>>,
    pub entry_statuses: Seq<bool>,
    pub is_complete: bool,
    pub start_time: u64,
    pub completion_time: Option<u64>,
    pub last_update: u64,
    pub entries_per_second: u64,
    pub estimated_total: Option<usize>,
    pub eta_seconds: Option<u64>,
    pub errors: Seq<SummaryErrorView>,
    pub critical_errors: usize,
    pub entry_errors: usize,
    pub attr_errors: usize,
}

impl View for AnalysisProgress {
    type V = AnalysisModel;

    open spec fn view(&self) -> AnalysisModel {
        AnalysisModel {
            total_entries: self.total_entries,
            valid_entries: self.valid_entries,
            error_entries: self.error_entries,
            attribute_counts: self.attribute_counts@,
            filename_entries: self.filename_entries,
            sample_paths: texts(self.sample_paths@),
            entry_statuses: self.entry_statuses@,
            is_complete: self.is_complete,
            start_time: self.start_time,
            completion_time: self.completion_time,
            last_update: self.last_update,
            entries_per_second: self.entries_per_second,
            estimated_total: self.estimated_total,
            eta_seconds: self.eta_seconds,
            errors: error_views(self.errors@),
            critical_errors: self.critical_errors,
            entry_errors: self.entry_errors,
            attr_errors: self.attr_errors,
        }
    }
}

/// The sum of the counts.
pub open spec fn counted(counts: Seq<AttributeCount>) -> nat
    decreases counts.len(),
{
    if counts.len() == 0 {
        0
    } else {
        counted(counts.drop_last()) + counts.last().count as nat
    }
}

/// The position of `type_code` among the counts, if it was counted.
pub open spec fn position_of(counts: Seq<AttributeCount>, type_code: u32) -> Option<int>
    decreases counts.len(),
{
    if counts.len() == 0 {
        None
    } else if position_of(counts.drop_last(), type_code) is Some {
        position_of(counts.drop_last(), type_code)
    } else if counts.last().type_code == type_code {
        Some(counts.len() - 1)
    } else {
        None
    }
}

/// The counts with one more for `type_code`.
pub open spec fn count_one(counts: Seq<AttributeCount>, type_code: u32) -> Seq<AttributeCount> {
    match position_of(counts, type_code) {
        Some(i) => counts.update(
            i,
            AttributeCount { type_code, count: (counts[i].count + 1) as usize },
        ),
        None => counts.push(AttributeCount { type_code, count: 1 }),
    }
}

impl AnalysisModel {
    /// The counters agree with the lists that they count.
    pub open spec fn wf(self) -> bool {
        &&& self.total_entries == self.entry_statuses.len()
        &&& self.valid_entries + self.error_entries == self.total_entries
        &&& self.filename_entries <= self.total_entries
        &&& self.sample_paths.len() <= SAMPLE_LIMIT
        &&& self.sample_paths.len() <= self.filename_entries
        &&& counted(self.attribute_counts) <= self.total_entries
        &&& self.critical_errors + self.entry_errors + self.attr_errors <= self.errors.len()
    }
}

/// The rate in records per second after `total` records in `elapsed`
/// milliseconds, rounded down and cut off at the largest 64-bit value.
pub open spec fn rate_of(total: int, elapsed: int) -> u64 {
    if total * 1000 / elapsed > u64::MAX {
        u64::MAX
    } else {
        (total * 1000 / elapsed) as u64
    }
}

/// The statistics with rate and remaining time worked out anew at the time
/// `now`. No time passed: nothing is worked out. No rate: the remaining time
/// stays as it was.
pub open spec fn recalculated(m: AnalysisModel, now: u64) -> AnalysisModel {
    let elapsed = minus(now as int, m.start_time as int);
    if elapsed > 0 {
        let rate = rate_of(m.total_entries as int, elapsed);
        AnalysisModel {
            entries_per_second: rate,
            eta_seconds: match m.estimated_total {
                Some(estimated) => if rate > 0 {
                    Some((minus(estimated as int, m.total_entries as int) / (rate as int)) as u64)
                } else {
                    m.eta_seconds
                },
                None => m.eta_seconds,
            },
            last_update: now,
            ..m
        }
    } else {
        AnalysisModel { last_update: now, ..m }
    }
}

/// The statistics with one more error.
pub open spec fn with_error(m: AnalysisModel, e: SummaryErrorView) -> AnalysisModel {
    AnalysisModel {
        errors: m.errors.push(e),
        critical_errors: if e.kind == ErrorKind::Critical {
            (m.critical_errors + 1) as usize
        } else {
            m.critical_errors
        },
        entry_errors: if e.kind == ErrorKind::Entry {
            (m.entry_errors + 1) as usize
        } else {
            m.entry_errors
        },
        attr_errors: if e.kind == ErrorKind::Attribute {
            (m.attr_errors + 1) as usize
        } else {
            m.attr_errors
        },
        ..m
    }
}

/// The statistics that are complete since the time `now`.
pub open spec fn completed(m: AnalysisModel, now: u64) -> AnalysisModel {
    AnalysisModel { is_complete: true, completion_time: Some(now), eta_seconds: Some(0), ..m }
}

/// The statistics with one more record.
pub open spec fn with_entry(
    m: AnalysisModel,
    is_valid: bool,
    filename_found: Option<Seq<char>>,
    attribute_type: Option<u32>,
) -> AnalysisModel {
    AnalysisModel {
        total_entries: (m.total_entries + 1) as usize,
        valid_entries: if is_valid {
            (m.valid_entries + 1) as usize
        } else {
            m.valid_entries
        },
        error_entries: if is_valid {
            m.error_entries
        } else {
            (m.error_entries + 1) as usize
        },
        filename_entries: if filename_found is Some {
            (m.filename_entries + 1) as usize
        } else {
            m.filename_entries
        },
        sample_paths: match filename_found {
            Some(name) => if m.sample_paths.len() < SAMPLE_LIMIT {
                m.sample_paths.push(name)
            } else {
                m.sample_paths
            },
            None => m.sample_paths,
        },
        attribute_counts: match attribute_type {
            Some(t) => count_one(m.attribute_counts, t),
            None => m.attribute_counts,
        },
        entry_statuses: m.entry_statuses.push(is_valid),
        ..m
    }
}

/// The statistics after a message that arrives at the time `now`.
pub open spec fn summary_after(m: AnalysisModel, message: ProgressMessageView, now: u64)
    -> AnalysisModel {
    match message {
        ProgressMessageView::EntryProcessed { is_valid, filename_found, attribute_type } => {
            let next = with_entry(m, is_valid, filename_found, attribute_type);
            if next.total_entries % RATE_INTERVAL == 0 {
                recalculated(next, now)
            } else {
                next
            }
        },
        ProgressMessageView::EstimatedTotal(total) => recalculated(
            AnalysisModel { estimated_total: Some(total), ..m },
            now,
        ),
        ProgressMessageView::Complete => completed(m, now),
        ProgressMessageView::Error(e) => completed(with_error(m, e), now),
        ProgressMessageView::ParseError(e) => with_error(m, e),
    }
}

/// The share of the expected records that is worked off, in per cent,
/// rounded down and at most 100; zero where nothing is expected.
pub open spec fn percentage(m: AnalysisModel) -> u16 {
    match m.estimated_total {
        Some(estimated) => if estimated > 0 {
            if m.total_entries >= estimated {
                100
            } else {
                (m.total_entries * 100 / (estimated as int)) as u16
            }
        } else {
            0
        },
        None => 0,
    }
}

/// Counting one more keeps every count and raises the sum by one.
pub proof fn count_one_adds_one(counts: Seq<AttributeCount>, type_code: u32)
    requires
        counted(counts) < usize::MAX,
    ensures
        counted(count_one(counts, type_code)) == counted(counts) + 1,
    decreases counts.len(),
{
    let next = count_one(counts, type_code);
    if counts.len() == 0 {
        let one = seq![AttributeCount { type_code, count: 1 }];
        assert(next =~= one);
        assert(one.drop_last() =~= Seq::<AttributeCount>::empty());
        assert(counted(one) == counted(one.drop_last()) + one.last().count);
    } else {
        let head = counts.drop_last();
        count_bounds(counts);
        assert(counts.last().count <= counted(counts));
        if position_of(head, type_code) is Some {
            let i = position_of(head, type_code)->0;
            position_in_range(head, type_code);
            count_one_adds_one(head, type_code);
            assert(position_of(counts, type_code) == Some(i));
            assert(counts[i] == head[i]);
            assert(next.drop_last() =~= count_one(head, type_code));
            assert(next.last() == counts.last());
            assert(counted(next) == counted(next.drop_last()) + next.last().count);
        } else if counts.last().type_code == type_code {
            assert(position_of(counts, type_code) == Some(counts.len() - 1));
            assert(next.drop_last() =~= head);
            assert(next.last().count == counts.last().count + 1);
            assert(counted(next) == counted(next.drop_last()) + next.last().count);
        } else {
            assert(position_of(counts, type_code) is None);
            assert(next.drop_last() =~= counts);
            assert(next.last().count == 1);
            assert(counted(next) == counted(next.drop_last()) + next.last().count);
        }
    }
}

proof fn position_in_range(counts: Seq<AttributeCount>, type_code: u32)
    ensures
        position_of(counts, type_code) is Some ==> 0 <= position_of(counts, type_code)->0
            < counts.len() && counts[position_of(counts, type_code)->0].type_code == type_code,
    decreases counts.len(),
{
    if counts.len() > 0 {
        position_in_range(counts.drop_last(), type_code);
    }
}

proof fn count_bounds(counts: Seq<AttributeCount>)
    ensures
        forall|i: int| 0 <= i < counts.len() ==> (#[trigger] counts[i]).count <= counted(counts),
    decreases counts.len(),
{
    if counts.len() > 0 {
        count_bounds(counts.drop_last());
        assert forall|i: int| 0 <= i < counts.len() implies (#[trigger] counts[i]).count
            <= counted(counts) by {
            if i < counts.len() - 1 {
                assert(counts[i] == counts.drop_last()[i]);
            }
        }
    }
}

fn count_attribute(counts: &mut Vec<AttributeCount>, type_code: u32)
    requires
        counted(old(counts)@) < usize::MAX,
    ensures
        final(counts)@ == count_one(old(counts)@, type_code),
{
    let mut i: usize = 0;
    proof {
        count_bounds(counts@);
        assert(counts@.take(0) =~= Seq::<AttributeCount>::empty());
    }
    while i < counts.len()
        invariant
            i <= counts.len(),
            counts@ == old(counts)@,
            counted(counts@) < usize::MAX,
            position_of(counts@.take(i as int), type_code) is None,
            forall|j: int| 0 <= j < counts@.len() ==> (#[trigger] counts@[j]).count <= counted(
                counts@,
            ),
        decreases counts.len() - i,
    {
        proof {
            assert(counts@.take(i + 1).drop_last() =~= counts@.take(i as int));
            assert(counts@.take(i + 1).last() == counts@[i as int]);
        }
        if counts[i].type_code == type_code {
            proof {
                position_extends(counts@, i + 1, type_code);
            }
            let count = counts[i].count;
            counts.set(i, AttributeCount { type_code, count: count + 1 });
            return ;
        }
        i += 1;
    }
    proof {
        assert(counts@.take(counts.len() as int) =~= counts@);
    }
    counts.push(AttributeCount { type_code, count: 1 });
}

/// A type found among the first `n` counts is found there among all.
proof fn position_extends(counts: Seq<AttributeCount>, n: int, type_code: u32)
    requires
        0 <= n <= counts.len(),
        position_of(counts.take(n), type_code) is Some,
    ensures
        position_of(counts, type_code) == position_of(counts.take(n), type_code),
    decreases counts.len() - n,
{
    if n < counts.len() {
        assert(counts.take(n + 1).drop_last() =~= counts.take(n));
        position_extends(counts, n + 1, type_code);
    } else {
        assert(counts.take(n) =~= counts);
    }
}

impl AnalysisProgress {
    /// The statistics of an analysis that begins at the time `now`.
    pub fn new(now: u64) -> (p: Self)
        ensures
            p@.wf(),
            p@.total_entries == 0,
            p@.errors.len() == 0,
            !p@.is_complete,
            p@.start_time == now,
            p@.last_update == now,
            p@.estimated_total is None,
            p@.eta_seconds is None,
            p@.completion_time is None,
            p@.entries_per_second == 0,
    {
        let p = AnalysisProgress {
            total_entries: 0,
            valid_entries: 0,
            error_entries: 0,
            attribute_counts: Vec::new(),
            filename_entries: 0,
            sample_paths: Vec::new(),
            entry_statuses: Vec::new(),
            is_complete: false,
            start_time: now,
            completion_time: None,
            last_update: now,
            entries_per_second: 0,
            estimated_total: None,
            eta_seconds: None,
            errors: Vec::new(),
            critical_errors: 0,
            entry_errors: 0,
            attr_errors: 0,
        };
        assert(texts(p.sample_paths@) =~= Seq::empty());
        assert(error_views(p.errors@) =~= Seq::empty());
        p
    }

    /// Works out rate and remaining time anew.
    pub fn recalculate_rate_and_eta(&mut self, now: u64)
        ensures
            final(self)@ == recalculated(old(self)@, now),
    {
        if now > self.start_time {
            let elapsed: u64 = now - self.start_time;
            let scaled: u128 = (self.total_entries as u128) * 1000;
            let per_second: u128 = scaled / (elapsed as u128);
            let rate: u64 = if per_second > u64::MAX as u128 {
                u64::MAX
            } else {
                per_second as u64
            };
            self.entries_per_second = rate;
            match self.estimated_total {
                Some(estimated) => {
                    if rate > 0 {
                        let remaining = estimated.saturating_sub(self.total_entries);
                        self.eta_seconds = Some((remaining as u64) / rate);
                    }
                },
                None => {},
            }
        }
        self.last_update = now;
    }

    fn record_error(&mut self, error: SummaryError)
        requires
            old(self)@.wf(),
        ensures
            final(self)@ == with_error(old(self)@, error@),
            final(self)@.wf(),
    {
        let kind = error.kind;
        let ghost before = error_views(self.errors@);
        self.errors.push(error);
        assert(error_views(self.errors@) =~= before.push(error@));
        let recorded = self.errors.len();
        assert(self.critical_errors + self.entry_errors + self.attr_errors < recorded);
        match kind {
            ErrorKind::Critical => {
                self.critical_errors += 1;
            },
            ErrorKind::Entry => {
                self.entry_errors += 1;
            },
            ErrorKind::Attribute => {
                self.attr_errors += 1;
            },
            ErrorKind::Other => {},
        }
    }

    /// Takes in one message. `now` is the time on the caller's clock, in
    /// milliseconds.
    pub fn update_with_message(&mut self, message: ProgressMessage, now: u64)
        requires
            old(self)@.wf(),
        ensures
            final(self)@ == summary_after(old(self)@, message@, now),
            final(self)@.wf(),
    {
        match message {
            ProgressMessage::EntryProcessed { is_valid, filename_found, attribute_type } => {
                let ghost m = self@;
                self.entry_statuses.push(is_valid);
                self.total_entries = self.entry_statuses.len();
                if is_valid {
                    self.valid_entries += 1;
                } else {
                    self.error_entries += 1;
                }
                match filename_found {
                    Some(name) => {
                        self.filename_entries += 1;
                        if self.sample_paths.len() < SAMPLE_LIMIT {
                            let ghost before = texts(self.sample_paths@);
                            self.sample_paths.push(name);
                            assert(texts(self.sample_paths@) =~= before.push(name@));
                        }
                    },
                    None => {},
                }
                match attribute_type {
                    Some(t) => {
                        proof {
                            count_one_adds_one(self.attribute_counts@, t);
                        }
                        count_attribute(&mut self.attribute_counts, t);
                    },
                    None => {},
                }
                assert(self@ == with_entry(m, is_valid, message@->filename_found, attribute_type));
                if self.total_entries % RATE_INTERVAL == 0 {
                    self.recalculate_rate_and_eta(now);
                }
            },
            ProgressMessage::EstimatedTotal(total) => {
                self.estimated_total = Some(total);
                self.recalculate_rate_and_eta(now);
            },
            ProgressMessage::Complete => {
                self.is_complete = true;
                self.completion_time = Some(now);
                self.eta_seconds = Some(0);
            },
            ProgressMessage::Error(error) => {
                self.record_error(error);
                self.is_complete = true;
                self.completion_time = Some(now);
                self.eta_seconds = Some(0);
            },
            ProgressMessage::ParseError(error) => {
                self.record_error(error);
            },
        }
    }

    /// The share of the expected records that is worked off, in per cent.
    pub fn progress_percentage(&self) -> (p: u16)
        ensures
            p == percentage(self@),
            p <= 100,
    {
        match self.estimated_total {
            Some(estimated) => {
                if estimated == 0 {
                    0
                } else if self.total_entries >= estimated {
                    100
                } else {
                    let scaled: u128 = (self.total_entries as u128) * 100;
                    let share: u128 = scaled / (estimated as u128);
                    assert(share < 100) by (nonlinear_arith)
                        requires
                            share == scaled / (estimated as u128),
                            scaled == self.total_entries * 100,
                            self.total_entries < estimated,
                            estimated > 0,
                    ;
                    share as u16
                }
            },
            None => 0,
        }
    }

    /// Whether any error was recorded.
    pub fn has_errors(&self) -> (b: bool)
        ensures
            b == (self@.errors.len() > 0),
    {
        self.errors.len() > 0
    }

    /// The numbers of critical, record and attribute errors.
    pub fn error_summary(&self) -> (counts: (usize, usize, usize))
        ensures
            counts == (self@.critical_errors, self@.entry_errors, self@.attr_errors),
    {
        (self.critical_errors, self.entry_errors, self.attr_errors)
    }

    /// Makes an error of the kind that `error_type` names.
    pub fn create_styled_error(error_type: &str, message: String) -> (e: SummaryError)
        ensures
            e@ == (SummaryErrorView { kind: kind_of(error_type@), message: message@ }),
    {
        let text = crate::text::chars_of(error_type);
        let kind = if matches_word(&text, "attribute") {
            ErrorKind::Attribute
        } else if matches_word(&text, "entry") {
            ErrorKind::Entry
        } else if matches_word(&text, "critical") {
            ErrorKind::Critical
        } else {
            ErrorKind::Other
        };
        SummaryError { kind, message }
    }
}

} // verus!
