//! The search tab: a query that is typed, a ranked list of matches, and a
//! selection that scrolls through it.

use vstd::prelude::*;
use vstd::string::*;
use crate::fuzzy::bare_entries;
use crate::fuzzy::FuzzyIndex;
use crate::fuzzy::IndexEntry;
use crate::tui::progress::progress_views;
use crate::tui::progress::MftFileProgress;
use crate::tui::progress::ProgressView;
use crate::tui::tabs::errors_tab::minus;
use crate::tui::tabs::errors_tab::plus;
use crate::tui::tabs::keys::KeyCode;
use crate::tui::tabs::keys::KeyboardResponse;

verus! {

/// Number of paths that one update puts into the index at most, so that
/// the display is not held up.
pub const BATCH_LIMIT: usize = 10000;

/// Height of the list of results before the first frame is drawn.
pub const DEFAULT_VISIBLE_HEIGHT: usize = 20;

/// Milliseconds that the index may work per frame.
pub const TICK_MS: u64 = 10;

/// The search tab.
pub struct SearchTab {
    search_query: String,
    scroll_offset: usize,
    selected_index: usize,
    index: FuzzyIndex,
    last_file_count: usize,
    visible_height: usize,
}

/// The state of the search tab but for the index.
pub struct SearchState {
    pub query: Seq<char>,
    pub scroll_offset: usize,
    pub selected_index: usize,
    pub last_file_count: usize,
    pub visible_height: usize,
}

/// The first drawn entry after the selection moved down to `selected`: the
/// list scrolls just far enough to show it.
pub open spec fn scrolled_to(scroll: int, selected: int, visible: int) -> int {
    if selected >= scroll + visible {
        minus(selected, minus(visible, 1))
    } else {
        scroll
    }
}

/// The state after a key, with `matched` entries in the list.
pub open spec fn search_after_key(s: SearchState, key: KeyCode, matched: int) -> SearchState {
    match key {
        KeyCode::Char(c) => SearchState {
            query: s.query.push(c),
            scroll_offset: 0,
            selected_index: 0,
            ..s
        },
        KeyCode::Backspace => SearchState {
            query: if s.query.len() > 0 {
                s.query.drop_last()
            } else {
                s.query
            },
            scroll_offset: 0,
            selected_index: 0,
            ..s
        },
        KeyCode::Up => if s.selected_index > 0 {
            SearchState {
                selected_index: (s.selected_index - 1) as usize,
                scroll_offset: if s.selected_index - 1 < s.scroll_offset {
                    (s.selected_index - 1) as usize
                } else {
                    s.scroll_offset
                },
                ..s
            }
        } else {
            s
        },
        KeyCode::Down => if matched > 0 && s.selected_index < matched - 1 {
            SearchState {
                selected_index: (s.selected_index + 1) as usize,
                scroll_offset: scrolled_to(
                    s.scroll_offset as int,
                    s.selected_index + 1,
                    s.visible_height as int,
                ) as usize,
                ..s
            }
        } else {
            s
        },
        KeyCode::PageUp => SearchState {
            selected_index: minus(s.selected_index as int, s.visible_height as int) as usize,
            scroll_offset: minus(s.scroll_offset as int, s.visible_height as int) as usize,
            ..s
        },
        KeyCode::PageDown => if matched > 0 {
            let target = if s.selected_index + s.visible_height < matched - 1 {
                s.selected_index + s.visible_height
            } else {
                matched - 1
            };
            SearchState {
                selected_index: target as usize,
                scroll_offset: scrolled_to(
                    s.scroll_offset as int,
                    target,
                    s.visible_height as int,
                ) as usize,
                ..s
            }
        } else {
            s
        },
        KeyCode::Home => SearchState { selected_index: 0, scroll_offset: 0, ..s },
        KeyCode::End => if matched > 0 {
            SearchState {
                selected_index: (matched - 1) as usize,
                scroll_offset: minus(matched, s.visible_height as int) as usize,
                ..s
            }
        } else {
            s
        },
        _ => s,
    }
}

/// Whether the search tab handles a key.
pub open spec fn search_handles(key: KeyCode) -> bool {
    match key {
        KeyCode::Char(_) | KeyCode::Backspace | KeyCode::Up | KeyCode::Down | KeyCode::PageUp
        | KeyCode::PageDown | KeyCode::Home | KeyCode::End => true,
        _ => false,
    }
}

/// The state once scroll position and selection are fitted to a list of
/// `matched` entries: nothing changes for an empty list; otherwise the list
/// is not scrolled past its end and the selection lies in the list.
pub open spec fn search_fitted(s: SearchState, matched: int) -> SearchState {
    if matched <= 0 {
        s
    } else {
        let max_scroll = minus(matched, s.visible_height as int);
        SearchState {
            scroll_offset: if s.scroll_offset < max_scroll {
                s.scroll_offset
            } else {
                max_scroll as usize
            },
            selected_index: if s.selected_index < matched - 1 {
                s.selected_index
            } else {
                (matched - 1) as usize
            },
            ..s
        }
    }
}

/// The ranks that are drawn: from the scroll position on, as many as fit
/// and exist.
pub open spec fn drawn_range(s: SearchState, matched: int) -> (int, int) {
    let start = s.scroll_offset as int;
    let end = if start + s.visible_height < matched {
        start + s.visible_height
    } else {
        matched
    };
    (start, end)
}

/// Every path of every file, file after file.
pub open spec fn all_paths(files: Seq<ProgressView>) -> Seq<Seq<char>>
    decreases files.len(),
{
    if files.len() == 0 {
        Seq::empty()
    } else {
        all_paths(files.drop_last()) + files.last().files_within
    }
}

/// The end of the batch that an update indexes: everything that is new, but
/// no more than the batch limit.
pub open spec fn batch_end(total: int, last: int) -> int {
    if total <= last {
        last
    } else if total - last > BATCH_LIMIT {
        last + BATCH_LIMIT
    } else {
        total
    }
}

impl SearchTab {
    /// The state of the tab but for the index.
    pub closed spec fn state(&self) -> SearchState {
        SearchState {
            query: self.search_query@,
            scroll_offset: self.scroll_offset,
            selected_index: self.selected_index,
            last_file_count: self.last_file_count,
            visible_height: self.visible_height,
        }
    }

    /// The entries of the index: bare paths.
    pub closed spec fn indexed(&self) -> Seq<(Seq<char>, Option<i64>, Option<i64>, Option<i64>)> {
        self.index.entries()
    }

    /// The number of matches in the index's current snapshot.
    pub closed spec fn matched(&self) -> nat {
        self.index.matches()
    }

    /// The matches in the index's current snapshot, best first.
    pub closed spec fn ranked(&self) -> Seq<(Seq<char>, Option<i64>, Option<i64>, Option<i64>)> {
        self.index.ranked()
    }

    /// The number of entries that the index's current snapshot covers.
    pub closed spec fn covered(&self) -> nat {
        self.index.covered()
    }

    /// The live query of the index: what the entries are matched against.
    pub closed spec fn pattern(&self) -> Seq<char> {
        self.index.query()
    }

    /// The tab as it opens: no query, nothing indexed.
    pub fn new() -> (tab: Self)
        ensures
            tab.state() == (SearchState {
                query: Seq::empty(),
                scroll_offset: 0,
                selected_index: 0,
                last_file_count: 0,
                visible_height: DEFAULT_VISIBLE_HEIGHT,
            }),
            tab.indexed() == bare_entries(Seq::empty()),
            tab.pattern() == Seq::<char>::empty(),
    {
        SearchTab {
            search_query: String::new(),
            scroll_offset: 0,
            selected_index: 0,
            index: FuzzyIndex::new(),
            last_file_count: 0,
            visible_height: DEFAULT_VISIBLE_HEIGHT,
        }
    }

    /// The query as it was typed.
    pub fn query(&self) -> (q: &str)
        ensures
            q@ == self.state().query,
    {
        self.search_query.as_str()
    }

    /// The index of the first entry that is drawn.
    pub fn scroll_offset(&self) -> (n: usize)
        ensures
            n == self.state().scroll_offset,
    {
        self.scroll_offset
    }

    /// The index of the selected entry.
    pub fn selected_index(&self) -> (n: usize)
        ensures
            n == self.state().selected_index,
    {
        self.selected_index
    }

    /// Sets the number of entries that can be drawn.
    pub fn set_visible_height(&mut self, height: usize)
        ensures
            final(self).state() == (SearchState { visible_height: height, ..old(self).state() }),
            final(self).indexed() == old(self).indexed(),
            final(self).matched() == old(self).matched(),
    {
        self.visible_height = height;
    }

    fn scroll_to_selection(&mut self)
        ensures
            final(self).state() == (SearchState {
                scroll_offset: scrolled_to(
                    old(self).scroll_offset as int,
                    old(self).selected_index as int,
                    old(self).visible_height as int,
                ) as usize,
                ..old(self).state()
            }),
            final(self).index == old(self).index,
    {
        if self.selected_index >= self.scroll_offset && self.selected_index - self.scroll_offset
            >= self.visible_height {
            self.scroll_offset = self.selected_index.saturating_sub(
                self.visible_height.saturating_sub(1),
            );
        }
    }

    /// Handles a key. Typing changes the query, which the index takes up as
    /// its live query; the other keys move the selection through the
    /// matches.
    pub fn on_key(&mut self, key: KeyCode) -> (response: KeyboardResponse)
        ensures
            final(self).state() == search_after_key(
                old(self).state(),
                key,
                old(self).matched() as int,
            ),
            final(self).pattern() == (if key is Char || key == KeyCode::Backspace {
                final(self).state().query
            } else {
                old(self).pattern()
            }),
            final(self).indexed() == old(self).indexed(),
            final(self).matched() == old(self).matched(),
            response == (if search_handles(key) {
                KeyboardResponse::Consume
            } else {
                KeyboardResponse::Pass
            }),
    {
        match key {
            KeyCode::Char(c) => {
                self.search_query.push(c);
                self.scroll_offset = 0;
                self.selected_index = 0;
                self.update_search();
                KeyboardResponse::Consume
            },
            KeyCode::Backspace => {
                let _ = self.search_query.pop();
                self.scroll_offset = 0;
                self.selected_index = 0;
                self.update_search();
                KeyboardResponse::Consume
            },
            KeyCode::Up => {
                if self.selected_index > 0 {
                    self.selected_index -= 1;
                    if self.selected_index < self.scroll_offset {
                        self.scroll_offset = self.selected_index;
                    }
                }
                KeyboardResponse::Consume
            },
            KeyCode::Down => {
                let matched_count = self.index.matched_count();
                if matched_count > 0 && self.selected_index < matched_count - 1 {
                    self.selected_index += 1;
                    self.scroll_to_selection();
                }
                KeyboardResponse::Consume
            },
            KeyCode::PageUp => {
                self.selected_index = self.selected_index.saturating_sub(self.visible_height);
                self.scroll_offset = self.scroll_offset.saturating_sub(self.visible_height);
                KeyboardResponse::Consume
            },
            KeyCode::PageDown => {
                let matched_count = self.index.matched_count();
                if matched_count > 0 {
                    let last = matched_count - 1;
                    if last - self.selected_index.min(last) > self.visible_height
                        && self.selected_index < last {
                        self.selected_index = self.selected_index + self.visible_height;
                    } else {
                        self.selected_index = last;
                    }
                    self.scroll_to_selection();
                }
                KeyboardResponse::Consume
            },
            KeyCode::Home => {
                self.selected_index = 0;
                self.scroll_offset = 0;
                KeyboardResponse::Consume
            },
            KeyCode::End => {
                let matched_count = self.index.matched_count();
                if matched_count > 0 {
                    self.selected_index = matched_count - 1;
                    self.scroll_offset = matched_count.saturating_sub(self.visible_height);
                }
                KeyboardResponse::Consume
            },
            _ => KeyboardResponse::Pass,
        }
    }

    /// Hands the query of the tab to the index, which matches against it
    /// from its next tick on.
    fn update_search(&mut self)
        ensures
            final(self).pattern() == old(self).state().query,
            final(self).state() == old(self).state(),
            final(self).indexed() == old(self).indexed(),
            final(self).matched() == old(self).matched(),
    {
        self.index.reparse_pattern(self.search_query.as_str());
    }

    /// Fits scroll position and selection to the matches at hand and returns
    /// the ranks to draw, the first and the one after the last.
    pub fn fit(&mut self) -> (range: (usize, usize))
        ensures
            final(self).state() == search_fitted(old(self).state(), old(self).matched() as int),
            final(self).indexed() == old(self).indexed(),
            final(self).matched() == old(self).matched(),
            (range.0 as int, range.1 as int) == drawn_range(
                final(self).state(),
                old(self).matched() as int,
            ) || old(self).matched() == 0,
            old(self).matched() == 0 ==> range == (0usize, 0usize),
    {
        let matched_count = self.index.matched_count();
        if matched_count == 0 {
            return (0, 0);
        }
        let max_scroll = matched_count.saturating_sub(self.visible_height);
        if self.scroll_offset > max_scroll {
            self.scroll_offset = max_scroll;
        }
        if self.selected_index > matched_count - 1 {
            self.selected_index = matched_count - 1;
        }
        let start = self.scroll_offset;
        let end = if matched_count - start > self.visible_height {
            start + self.visible_height
        } else {
            matched_count
        };
        (start, end)
    }

    /// Empties the index and goes back to the top, as before a new scan. The
    /// query of the tab stays; the new index has no entries, no matches and
    /// no live query until the next key hands it one.
    pub fn clear_files(&mut self)
        ensures
            final(self).state() == (SearchState {
                scroll_offset: 0,
                selected_index: 0,
                last_file_count: 0,
                ..old(self).state()
            }),
            final(self).indexed() == bare_entries(Seq::empty()),
            final(self).pattern() == Seq::<char>::empty(),
            final(self).matched() == 0,
            final(self).covered() == 0,
            final(self).ranked() == Seq::<(Seq<char>, Option<i64>, Option<i64>, Option<i64>)>::empty(),
    {
        self.index = FuzzyIndex::new();
        self.last_file_count = 0;
        self.scroll_offset = 0;
        self.selected_index = 0;
    }

    /// The number of entries that the index has worked through, and the
    /// number of those that match.
    pub fn get_stats(&self) -> (stats: (usize, usize))
        ensures
            stats.0 == self.covered(),
            stats.1 == self.matched(),
    {
        (self.index.item_count(), self.index.matched_count())
    }

    /// The selected match, if there is one.
    pub fn get_selected_file(&self) -> (entry: Option<IndexEntry>)
        ensures
            match entry {
                Some(e) => self.state().selected_index < self.matched() && crate::fuzzy::as_tuple(
                    e@,
                ) == self.ranked()[self.state().selected_index as int],
                None => self.state().selected_index >= self.matched(),
            },
            entry is Some ==> self.indexed().contains(crate::fuzzy::as_tuple(entry->0@)),
    {
        self.index.matched_item(self.selected_index)
    }

    /// The matches to draw, best first: those of the ranks `start..end`, as
    /// far as there are matches.
    pub fn results(&self, start: usize, end: usize) -> (items: Vec<IndexEntry>)
        ensures
            items@.len() == crate::fuzzy::ranks_within(
                start as int,
                end as int,
                self.matched() as int,
            ),
            forall|i: int|
                0 <= i < items@.len() ==> crate::fuzzy::as_tuple((#[trigger] items@[i])@)
                    == self.ranked()[start + i],
            forall|i: int|
                0 <= i < items@.len() ==> self.indexed().contains(
                    crate::fuzzy::as_tuple((#[trigger] items@[i])@),
                ),
    {
        self.index.matched_items(start, end)
    }

    /// Lets the index work for one time slice. Returns whether work
    /// remains. What matches afterwards depends on how far the workers have
    /// come; the state of the tab, the entries and the live query stay.
    pub fn tick(&mut self) -> (work_remaining: bool)
        ensures
            final(self).state() == old(self).state(),
            final(self).indexed() == old(self).indexed(),
            final(self).pattern() == old(self).pattern(),
    {
        self.index.tick(TICK_MS)
    }
}

/// The paths of the first `n` files are the beginning of the paths of all
/// files, and the paths of file `n` follow them.
pub proof fn all_paths_prefix(files: Seq<ProgressView>, n: int)
    requires
        0 <= n <= files.len(),
    ensures
        all_paths(files.take(n)).len() <= all_paths(files).len(),
        all_paths(files).take(all_paths(files.take(n)).len() as int) == all_paths(files.take(n)),
        n < files.len() ==> all_paths(files.take(n + 1)) == all_paths(files.take(n))
            + files[n].files_within,
    decreases files.len() - n,
{
    if n < files.len() {
        all_paths_prefix(files, n + 1);
        let next = files.take(n + 1);
        assert(next.drop_last() =~= files.take(n));
        assert(next.last() == files[n]);
        let head = all_paths(files.take(n));
        let more = all_paths(next);
        assert(more == head + files[n].files_within);
        assert(all_paths(files).take(head.len() as int) =~= more.take(head.len() as int));
        assert(more.take(head.len() as int) =~= head);
    } else {
        assert(files.take(n) =~= files);
        assert(all_paths(files).take(all_paths(files).len() as int) =~= all_paths(files));
    }
}

impl SearchTab {
    /// Puts the paths that are new since the last update into the index, up
    /// to the batch limit, and lets the index work for one time slice.
    pub fn update_file_entries(&mut self, mft_files: &Vec<MftFileProgress>)
        ensures
            ({
                let all = all_paths(progress_views(mft_files@));
                let last = old(self).state().last_file_count as int;
                let end = batch_end(all.len() as int, last);
                &&& final(self).state() == (SearchState {
                    last_file_count: plus(last, end - last) as usize,
                    ..old(self).state()
                })
                &&& final(self).indexed() == (if all.len() > last {
                    old(self).indexed() + bare_entries(all.subrange(last, end))
                } else {
                    old(self).indexed()
                })
            }),
    {
        let ghost views = progress_views(mft_files@);
        let ghost all = all_paths(views);
        let ghost last = self.last_file_count as int;
        let ghost start_entries = self.indexed();
        let mut skip: usize = self.last_file_count;
        let mut added: usize = 0;
        let mut f: usize = 0;
        proof {
            assert(views.take(0) =~= Seq::<ProgressView>::empty());
            assert(start_entries + bare_entries(Seq::<Seq<char>>::empty()) =~= start_entries);
            if mft_files.len() == 0 {
                assert(views.take(0) =~= views);
            }
        }
        while f < mft_files.len() && added < BATCH_LIMIT
            invariant_except_break
                all_paths(views.take(f as int)).len() <= last ==> skip == last - all_paths(
                    views.take(f as int),
                ).len() && added == 0,
                all_paths(views.take(f as int)).len() > last ==> skip == 0 && added == all_paths(
                    views.take(f as int),
                ).len() - last,
            invariant
                f <= mft_files.len(),
                views == progress_views(mft_files@),
                all == all_paths(views),
                all_paths(views.take(f as int)).len() <= all.len(),
                f == mft_files.len() ==> all_paths(views.take(f as int)).len() == all.len(),
                last == old(self).state().last_file_count,
                start_entries == old(self).indexed(),
                self.state() == old(self).state(),
                added <= BATCH_LIMIT,
                added > 0 ==> last + added <= all.len(),
                self.indexed() == (if added > 0 {
                    start_entries + bare_entries(all.subrange(last, last + added))
                } else {
                    start_entries
                }),
            ensures
                added == batch_end(all.len() as int, last) - last,
            decreases mft_files.len() - f,
        {
            let ghost head = all_paths(views.take(f as int));
            proof {
                all_paths_prefix(views, f as int);
                all_paths_prefix(views, f + 1);
                if f + 1 == mft_files.len() {
                    assert(views.take(f + 1) =~= views);
                }
                assert(views[f as int].files_within == crate::text::texts(
                    mft_files@[f as int].files_within@,
                ));
            }
            let paths = &mft_files[f].files_within;
            let ghost within = crate::text::texts(paths@);
            if skip >= paths.len() {
                skip = skip - paths.len();
            } else {
                let mut j: usize = skip;
                skip = 0;
                while j < paths.len() && added < BATCH_LIMIT
                    invariant
                        j <= paths.len(),
                        within == crate::text::texts(paths@),
                        all_paths(views.take(f + 1)) == head + within,
                        all.take((head.len() + within.len()) as int) == head + within,
                        head.len() + within.len() <= all.len(),
                        head.len() + j >= last,
                        added == head.len() + j - last,
                        added <= BATCH_LIMIT,
                        self.state() == old(self).state(),
                        last == old(self).state().last_file_count,
                        self.indexed() == (if added > 0 {
                            start_entries + bare_entries(all.subrange(last, last + added))
                        } else {
                            start_entries
                        }),
                    decreases paths.len() - j,
                {
                    let ghost before = self.indexed();
                    let path = paths[j].clone();
                    proof {
                        assert(within[j as int] == path@);
                        assert((head + within)[head.len() + j] == within[j as int]);
                        assert(all[head.len() + j] == all.take(
                            (head.len() + within.len()) as int,
                        )[head.len() + j]);
                        assert(all[last + added] == path@);
                    }
                    self.index.push_path(path);
                    proof {
                        let item = (path@, None::<i64>, None::<i64>, None::<i64>);
                        if added > 0 {
                            assert(start_entries + bare_entries(
                                all.subrange(last, last + added + 1),
                            ) =~= (start_entries + bare_entries(
                                all.subrange(last, last + added),
                            )).push(item));
                        } else {
                            assert(start_entries + bare_entries(all.subrange(last, last + 1))
                                =~= start_entries.push(item));
                        }
                    }
                    added += 1;
                    j += 1;
                }
                if j < paths.len() {
                    // the batch is full: stop here, the rest comes with the next update
                    proof {
                        assert(added == BATCH_LIMIT);
                        assert(last + added < all.len());
                    }
                    break ;
                }
            }
            f += 1;
        }
        self.last_file_count = self.last_file_count.saturating_add(added);
        let _ = self.index.tick(TICK_MS);
    }
}

/// The index once the paths that are new since the last update are put
/// into it, up to the batch limit: `last` are indexed already.
pub open spec fn indexed_after(
    indexed: Seq<(Seq<char>, Option<i64>, Option<i64>, Option<i64>)>,
    last: usize,
    paths: Seq<Seq<char>>,
) -> Seq<(Seq<char>, Option<i64>, Option<i64>, Option<i64>)> {
    if paths.len() > last {
        indexed + bare_entries(paths.subrange(last as int, batch_end(paths.len() as int, last as int)))
    } else {
        indexed
    }
}

/// The state of the tab once it is brought up to date for a frame whose
/// list has `height` lines, given the paths of all files and the number of
/// matches that the index has afterwards.
pub open spec fn search_prepared(
    s: SearchState,
    height: usize,
    paths: Seq<Seq<char>>,
    matched: int,
) -> SearchState {
    search_fitted(
        SearchState {
            visible_height: height,
            last_file_count: plus(
                s.last_file_count as int,
                batch_end(paths.len() as int, s.last_file_count as int) - s.last_file_count,
            ) as usize,
            ..s
        },
        matched,
    )
}

impl SearchTab {
    /// Brings the tab up to date for a frame whose list has `height` lines:
    /// what is new is indexed, the index works for one time slice, and the
    /// list is fitted to the matches that it has then. Returns the ranks to
    /// draw.
    pub fn prepare(&mut self, mft_files: &Vec<MftFileProgress>, height: usize) -> (range: (
        usize,
        usize,
    ))
        ensures
            final(self).state() == search_prepared(
                old(self).state(),
                height,
                all_paths(progress_views(mft_files@)),
                final(self).matched() as int,
            ),
            final(self).indexed() == (if all_paths(progress_views(mft_files@)).len() > old(self).state().last_file_count {
                old(self).indexed() + bare_entries(
                    all_paths(progress_views(mft_files@)).subrange(
                        old(self).state().last_file_count as int,
                        batch_end(
                            all_paths(progress_views(mft_files@)).len() as int,
                            old(self).state().last_file_count as int,
                        ),
                    ),
                )
            } else {
                old(self).indexed()
            }),
            final(self).matched() > 0 ==> (range.0 as int, range.1 as int) == drawn_range(
                final(self).state(),
                final(self).matched() as int,
            ),
            final(self).matched() == 0 ==> range == (0usize, 0usize),
    {
        self.set_visible_height(height);
        self.update_file_entries(mft_files);
        self.fit()
    }
}

} // verus!
