//! The fuzzy index: an incremental matcher of the `nucleo` crate that holds
//! the discovered files and ranks their paths against a live pattern in
//! background threads. Nothing about the matcher is proved; the contracts
//! say what its source shows.

use nucleo::pattern::CaseMatching;
use nucleo::pattern::Normalization;
use nucleo::Config;
use nucleo::Nucleo;
use std::sync::Arc;
use vstd::prelude::*;
use vstd::string::*;
use crate::resolver::discovered_views;
use crate::resolver::DiscoveredFile;
use crate::resolver::DiscoveredView;

verus! {

/// The matcher of the `nucleo` crate.
#[verifier::external_type_specification]
#[verifier::external_body]
#[verifier::reject_recursive_types(T)]
pub struct ExNucleo<T: Sync + Send + 'static>(Nucleo<T>);

/// One entry of the index: a path, which is matched, and the times of its
/// file in seconds since the Unix epoch.
#[derive(Debug)]
pub struct IndexEntry {
    pub path: String,
    pub created: Option<i64>,
    pub modified: Option<i64>,
    pub accessed: Option<i64>,
}

/// The mathematical value of an [`IndexEntry`].
pub struct IndexEntryView {
    pub path: Seq<char>,
    pub created: Option<i64>,
    pub modified: Option<i64>,
    pub accessed: Option<i64>,
}

impl View for IndexEntry {
    type V = IndexEntryView;

    open spec fn view(&self) -> IndexEntryView {
        IndexEntryView {
            path: self.path@,
            created: self.created,
            modified: self.modified,
            accessed: self.accessed,
        }
    }
}

/// The entries that were put into a matcher, in the order in which they
/// came: each a path with its three times.
pub uninterp spec fn injected(
    matcher: Nucleo<(String, Option<i64>, Option<i64>, Option<i64>)>,
) -> Seq<(Seq<char>, Option<i64>, Option<i64>, Option<i64>)>;

/// The entries that match the pattern in the snapshot that the matcher
/// holds, in the order of the snapshot: the best match first.
pub uninterp spec fn ranked(
    matcher: Nucleo<(String, Option<i64>, Option<i64>, Option<i64>)>,
) -> Seq<(Seq<char>, Option<i64>, Option<i64>, Option<i64>)>;

/// The number of entries that match the pattern in the snapshot that the
/// matcher holds.
pub open spec fn matched_len(
    matcher: Nucleo<(String, Option<i64>, Option<i64>, Option<i64>)>,
) -> nat {
    ranked(matcher).len()
}

/// The number of entries that the snapshot of the matcher covers: those
/// that the matcher had worked through when the snapshot was taken.
pub uninterp spec fn covered_len(
    matcher: Nucleo<(String, Option<i64>, Option<i64>, Option<i64>)>,
) -> nat;

/// An entry as the matcher holds it.
pub open spec fn as_tuple(e: IndexEntryView) -> (Seq<char>, Option<i64>, Option<i64>, Option<i64>) {
    (e.path, e.created, e.modified, e.accessed)
}

/// Makes an empty matcher with `nucleo::Nucleo::new`: default
/// configuration, one column, one worker per hardware thread. Its snapshot
/// covers nothing.
#[verifier::external_body]
fn new_matcher() -> (matcher: Nucleo<(String, Option<i64>, Option<i64>, Option<i64>)>)
    ensures
        injected(matcher) == Seq::<(Seq<char>, Option<i64>, Option<i64>, Option<i64>)>::empty(),
        ranked(matcher) == Seq::<(Seq<char>, Option<i64>, Option<i64>, Option<i64>)>::empty(),
        covered_len(matcher) == 0,
{
    Nucleo::new(Config::DEFAULT, Arc::new(|| {}), None, 1)
}

/// Appends `entry` with `nucleo::Injector::push`; its path is the text that
/// is matched. The snapshot is not touched.
#[verifier::external_body]
fn push_entry(
    matcher: &mut Nucleo<(String, Option<i64>, Option<i64>, Option<i64>)>,
    entry: IndexEntry,
)
    ensures
        injected(*final(matcher)) == injected(*old(matcher)).push(as_tuple(entry@)),
        ranked(*final(matcher)) == ranked(*old(matcher)),
        covered_len(*final(matcher)) == covered_len(*old(matcher)),
{
    let item = (entry.path, entry.created, entry.modified, entry.accessed);
    matcher.injector().push(item, |value, columns| columns[0] = value.0.as_str().into());
}

/// Replaces the pattern with `nucleo::pattern::MultiPattern::reparse`,
/// with smart case and smart normalization: the pattern is parsed from
/// `query`. Entries and snapshot stay; the matcher learns of the pattern
/// at its next tick.
#[verifier::external_body]
fn set_pattern(matcher: &mut Nucleo<(String, Option<i64>, Option<i64>, Option<i64>)>, query: &str)
    ensures
        injected(*final(matcher)) == injected(*old(matcher)),
        ranked(*final(matcher)) == ranked(*old(matcher)),
        covered_len(*final(matcher)) == covered_len(*old(matcher)),
{
    matcher.pattern.reparse(0, query, CaseMatching::Smart, Normalization::Smart, false);
}

/// Lets the matcher work for up to `timeout` milliseconds with
/// `nucleo::Nucleo::tick` and returns whether work remains. The snapshot may
/// change in any way; the entries stay.
#[verifier::external_body]
fn tick_matcher(
    matcher: &mut Nucleo<(String, Option<i64>, Option<i64>, Option<i64>)>,
    timeout: u64,
) -> (running: bool)
    ensures
        injected(*final(matcher)) == injected(*old(matcher)),
{
    matcher.tick(timeout).running
}

/// The number of matches in the snapshot, from
/// `nucleo::Snapshot::matched_item_count`.
#[verifier::external_body]
fn count_matches(matcher: &Nucleo<(String, Option<i64>, Option<i64>, Option<i64>)>) -> (n: u32)
    ensures
        n == matched_len(*matcher),
{
    matcher.snapshot().matched_item_count()
}

/// The number of entries that the snapshot covers, from
/// `nucleo::Snapshot::item_count`.
#[verifier::external_body]
fn count_items(matcher: &Nucleo<(String, Option<i64>, Option<i64>, Option<i64>)>) -> (n: u32)
    ensures
        n == covered_len(*matcher),
{
    matcher.snapshot().item_count()
}

/// The match of rank `n` in the snapshot, from
/// `nucleo::Snapshot::get_matched_item`: for every rank below the number of
/// matches the entry that the snapshot has at that rank, as the crate
/// documents, which is an entry of the matcher; nothing for any other rank.
#[verifier::external_body]
fn match_at(matcher: &Nucleo<(String, Option<i64>, Option<i64>, Option<i64>)>, n: u32) -> (entry:
    Option<IndexEntry>)
    ensures
        match entry {
            Some(e) => n < matched_len(*matcher) && as_tuple(e@) == ranked(*matcher)[n as int],
            None => n >= matched_len(*matcher),
        },
        entry is Some ==> injected(*matcher).contains(as_tuple(entry->0@)),
{
    let item = matcher.snapshot().get_matched_item(n)?;
    let (path, created, modified, accessed) = item.data.clone();
    Some(IndexEntry { path, created, modified, accessed })
}

/// The fuzzy index over discovered files.
pub struct FuzzyIndex {
    matcher: Nucleo<(String, Option<i64>, Option<i64>, Option<i64>)>,
    /// The live query: the text that was last handed to the matcher as its
    /// pattern.
    query: String,
}

/// The index entry of a discovered file.
pub open spec fn entry_of(file: DiscoveredView) -> IndexEntryView {
    IndexEntryView {
        path: file.full_path,
        created: file.created,
        modified: file.modified,
        accessed: file.accessed,
    }
}

/// The index entries of discovered files.
pub open spec fn entries_of(files: Seq<DiscoveredView>) -> Seq<
    (Seq<char>, Option<i64>, Option<i64>, Option<i64>),
> {
    files.map_values(|f: DiscoveredView| as_tuple(entry_of(f)))
}

/// The index entries of bare paths.
pub open spec fn bare_entries(paths: Seq<Seq<char>>) -> Seq<
    (Seq<char>, Option<i64>, Option<i64>, Option<i64>),
> {
    paths.map_values(|p: Seq<char>| (p, None::<i64>, None::<i64>, None::<i64>))
}

/// How many of the ranks `start..end` there are among `matches` matches.
pub open spec fn ranks_within(start: int, end: int, matches: int) -> int {
    let last = if end < matches {
        end
    } else {
        matches
    };
    if start < last {
        last - start
    } else {
        0
    }
}

impl FuzzyIndex {
    /// The entries that were pushed, in order.
    pub closed spec fn entries(&self) -> Seq<(Seq<char>, Option<i64>, Option<i64>, Option<i64>)> {
        injected(self.matcher)
    }

    /// The matches in the current snapshot, best first.
    pub closed spec fn ranked(&self) -> Seq<(Seq<char>, Option<i64>, Option<i64>, Option<i64>)> {
        ranked(self.matcher)
    }

    /// The number of matches in the current snapshot.
    pub closed spec fn matches(&self) -> nat {
        matched_len(self.matcher)
    }

    /// There are as many matches as the list of them holds.
    pub proof fn matches_are_ranked(&self)
        ensures
            self.matches() == self.ranked().len(),
    {
    }

    /// The number of entries that the current snapshot covers.
    pub closed spec fn covered(&self) -> nat {
        covered_len(self.matcher)
    }

    /// The live query: what entries are matched against.
    pub closed spec fn query(&self) -> Seq<char> {
        self.query@
    }

    /// An empty index.
    pub fn new() -> (index: Self)
        ensures
            index.entries() == Seq::<(Seq<char>, Option<i64>, Option<i64>, Option<i64>)>::empty(),
            index.matches() == 0,
            index.ranked() == Seq::<(Seq<char>, Option<i64>, Option<i64>, Option<i64>)>::empty(),
            index.covered() == 0,
            index.query() == Seq::<char>::empty(),
    {
        FuzzyIndex { matcher: new_matcher(), query: String::new() }
    }

    /// Adds one entry.
    pub fn push(&mut self, entry: IndexEntry)
        ensures
            final(self).entries() == old(self).entries().push(as_tuple(entry@)),
            final(self).matches() == old(self).matches(),
            final(self).ranked() == old(self).ranked(),
            final(self).covered() == old(self).covered(),
            final(self).query() == old(self).query(),
    {
        push_entry(&mut self.matcher, entry);
    }

    /// Adds a bare path.
    pub fn push_path(&mut self, path: String)
        ensures
            final(self).entries() == old(self).entries().push(
                (path@, None::<i64>, None::<i64>, None::<i64>),
            ),
            final(self).matches() == old(self).matches(),
            final(self).ranked() == old(self).ranked(),
            final(self).covered() == old(self).covered(),
            final(self).query() == old(self).query(),
    {
        self.push(IndexEntry { path, created: None, modified: None, accessed: None });
    }

    /// Adds each of `files`, in order, under its full path.
    pub fn push_discovered(&mut self, files: &Vec<DiscoveredFile>)
        ensures
            final(self).entries() == old(self).entries() + entries_of(discovered_views(files@)),
            final(self).matches() == old(self).matches(),
            final(self).ranked() == old(self).ranked(),
            final(self).covered() == old(self).covered(),
            final(self).query() == old(self).query(),
    {
        let ghost all = entries_of(discovered_views(files@));
        let mut i: usize = 0;
        assert(old(self).entries() + all.subrange(0, 0) =~= old(self).entries());
        while i < files.len()
            invariant
                i <= files.len(),
                all == entries_of(discovered_views(files@)),
                self.entries() == old(self).entries() + all.subrange(0, i as int),
                self.matches() == old(self).matches(),
                self.ranked() == old(self).ranked(),
                self.covered() == old(self).covered(),
                self.query() == old(self).query(),
            decreases files.len() - i,
        {
            let entry = IndexEntry {
                path: files[i].full_path.clone(),
                created: files[i].created,
                modified: files[i].modified,
                accessed: files[i].accessed,
            };
            assert(as_tuple(entry@) == all[i as int]);
            self.push(entry);
            assert(old(self).entries() + all.subrange(0, i + 1) =~= (old(self).entries()
                + all.subrange(0, i as int)).push(all[i as int]));
            i += 1;
        }
        assert(all.subrange(0, files.len() as int) =~= all);
    }

    /// Replaces the live query with `query`. Entries that are in the index
    /// are scored again at the next ticks; until then the snapshot stays.
    pub fn reparse_pattern(&mut self, query: &str)
        ensures
            final(self).query() == query@,
            final(self).entries() == old(self).entries(),
            final(self).matches() == old(self).matches(),
            final(self).ranked() == old(self).ranked(),
            final(self).covered() == old(self).covered(),
    {
        self.query = String::from_str(query);
        set_pattern(&mut self.matcher, query);
    }

    /// Advances matching by a time slice of at most `timeout_ms`
    /// milliseconds. Returns whether work remains. What the snapshot holds
    /// afterwards depends on how far the workers have come; the entries and
    /// the live query stay.
    pub fn tick(&mut self, timeout_ms: u64) -> (work_remaining: bool)
        ensures
            final(self).entries() == old(self).entries(),
            final(self).query() == old(self).query(),
    {
        tick_matcher(&mut self.matcher, timeout_ms)
    }

    /// The number of matches in the current snapshot.
    pub fn matched_count(&self) -> (n: usize)
        ensures
            n == self.matches(),
    {
        count_matches(&self.matcher) as usize
    }

    /// The number of entries that the current snapshot covers.
    pub fn item_count(&self) -> (n: usize)
        ensures
            n == self.covered(),
    {
        count_items(&self.matcher) as usize
    }

    /// The match of rank `n`, best first: there is one for every rank below
    /// the number of matches. Every match is an entry that was pushed.
    pub fn matched_item(&self, n: usize) -> (entry: Option<IndexEntry>)
        ensures
            match entry {
                Some(e) => n < self.matches() && as_tuple(e@) == self.ranked()[n as int],
                None => n >= self.matches(),
            },
            entry is Some ==> self.entries().contains(as_tuple(entry->0@)),
    {
        if n >= count_matches(&self.matcher) as usize {
            return None;
        }
        match_at(&self.matcher, n as u32)
    }

    /// The matches of the ranks `start..end`, best first, as far as the
    /// snapshot has them.
    pub fn matched_items(&self, start: usize, end: usize) -> (items: Vec<IndexEntry>)
        ensures
            items@.len() == ranks_within(start as int, end as int, self.matches() as int),
            forall|i: int|
                0 <= i < items@.len() ==> as_tuple((#[trigger] items@[i])@) == self.ranked()[start
                    + i],
            forall|i: int|
                0 <= i < items@.len() ==> self.entries().contains(
                    as_tuple((#[trigger] items@[i])@),
                ),
    {
        let mut items: Vec<IndexEntry> = Vec::new();
        if start >= end {
            return items;
        }
        let mut n: usize = start;
        while n < end
            invariant
                start <= n <= end,
                n <= self.matches() || n == start,
                items@.len() == n - start,
                forall|i: int|
                    0 <= i < items@.len() ==> as_tuple((#[trigger] items@[i])@)
                        == self.ranked()[start + i],
                forall|i: int|
                    0 <= i < items@.len() ==> self.entries().contains(
                        as_tuple((#[trigger] items@[i])@),
                    ),
            decreases end - n,
        {
            match self.matched_item(n) {
                Some(entry) => {
                    let ghost before = items@;
                    items.push(entry);
                    assert forall|i: int| 0 <= i < items@.len() implies self.entries().contains(
                        as_tuple((#[trigger] items@[i])@),
                    ) && as_tuple(items@[i]@) == self.ranked()[start + i] by {
                        if i < before.len() {
                            assert(items@[i] == before[i]);
                        }
                    }
                },
                None => {
                    return items;
                },
            }
            n += 1;
        }
        items
    }
}

} // verus!
