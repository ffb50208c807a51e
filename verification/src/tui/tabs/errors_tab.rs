//! The errors tab: a list of errors, grouped by message or raw, with a
//! selection that scrolls.

use vstd::prelude::*;
use crate::tui::progress::progress_views;
use crate::tui::progress::MftFileProgress;
use crate::tui::progress::ProgressView;
use crate::tui::tabs::keys::KeyCode;
use crate::tui::tabs::keys::KeyboardResponse;

verus! {

/// Number of entries that a page key moves by.
pub const PAGE_STEP: usize = 10;

/// The state of the errors tab.
#[derive(Clone, Copy, Debug, PartialEq, Eq, Structural)]
pub struct ErrorsTab {
    /// Index of the first entry that is drawn.
    pub scroll_offset: usize,
    /// Index of the selected entry.
    pub selected_index: usize,
    /// Whether errors with the same message are drawn as one entry.
    pub show_grouped: bool,
}

/// `a - b`, or zero where `b` is larger.
pub open spec fn minus(a: int, b: int) -> int {
    if a >= b {
        a - b
    } else {
        0
    }
}

/// `a + b`, or the largest value where the sum is larger.
pub open spec fn plus(a: int, b: int) -> int {
    if a + b > usize::MAX {
        usize::MAX as int
    } else {
        a + b
    }
}

/// The state after a key.
pub open spec fn errors_after_key(tab: ErrorsTab, key: KeyCode) -> ErrorsTab {
    match key {
        KeyCode::Char(c) => if c == 'g' {
            ErrorsTab { show_grouped: !tab.show_grouped, ..tab }
        } else {
            tab
        },
        KeyCode::Up => if tab.selected_index > 0 {
            ErrorsTab {
                selected_index: (tab.selected_index - 1) as usize,
                scroll_offset: if tab.selected_index - 1 < tab.scroll_offset {
                    (tab.selected_index - 1) as usize
                } else {
                    tab.scroll_offset
                },
                ..tab
            }
        } else {
            tab
        },
        KeyCode::Down => ErrorsTab {
            selected_index: plus(tab.selected_index as int, 1) as usize,
            ..tab
        },
        KeyCode::PageUp => ErrorsTab {
            selected_index: minus(tab.selected_index as int, PAGE_STEP as int) as usize,
            scroll_offset: minus(tab.scroll_offset as int, PAGE_STEP as int) as usize,
            ..tab
        },
        KeyCode::PageDown => ErrorsTab {
            selected_index: plus(tab.selected_index as int, PAGE_STEP as int) as usize,
            ..tab
        },
        KeyCode::Home => ErrorsTab { selected_index: 0, scroll_offset: 0, ..tab },
        KeyCode::End => ErrorsTab { selected_index: usize::MAX, ..tab },
        _ => tab,
    }
}

/// Whether the errors tab handles a key.
pub open spec fn errors_handles(key: KeyCode) -> bool {
    match key {
        KeyCode::Char(c) => c == 'g',
        KeyCode::Up | KeyCode::Down | KeyCode::PageUp | KeyCode::PageDown | KeyCode::Home
        | KeyCode::End => true,
        _ => false,
    }
}

/// The state once the selection and the scroll position are fitted to a
/// list of `len` entries of which `visible` can be drawn: the selection
/// lies in the list, the list is not scrolled past its end, and the selected
/// entry is among those drawn. Nothing changes where there is nothing to
/// draw.
pub open spec fn fitted(tab: ErrorsTab, len: int, visible: int) -> ErrorsTab {
    if len <= 0 || visible <= 0 {
        tab
    } else {
        let selected = if tab.selected_index < len {
            tab.selected_index as int
        } else {
            len - 1
        };
        let max_scroll = minus(len, visible);
        let scroll = if tab.scroll_offset < max_scroll {
            tab.scroll_offset as int
        } else {
            max_scroll
        };
        let scroll = if selected >= scroll + visible {
            selected - visible + 1
        } else {
            scroll
        };
        ErrorsTab { selected_index: selected as usize, scroll_offset: scroll as usize, ..tab }
    }
}

impl ErrorsTab {
    /// The tab as it opens: grouped, at the top.
    pub fn new() -> (tab: Self)
        ensures
            tab == (ErrorsTab { scroll_offset: 0, selected_index: 0, show_grouped: true }),
    {
        ErrorsTab { scroll_offset: 0, selected_index: 0, show_grouped: true }
    }

    /// Handles a key: `g` switches between the grouped and the raw list, the
    /// arrow, page, home and end keys move the selection.
    pub fn on_key(&mut self, key: KeyCode) -> (response: KeyboardResponse)
        ensures
            *final(self) == errors_after_key(*old(self), key),
            response == (if errors_handles(key) {
                KeyboardResponse::Consume
            } else {
                KeyboardResponse::Pass
            }),
    {
        match key {
            KeyCode::Char(c) => {
                if c == 'g' {
                    self.show_grouped = !self.show_grouped;
                    KeyboardResponse::Consume
                } else {
                    KeyboardResponse::Pass
                }
            },
            KeyCode::Up => {
                if self.selected_index > 0 {
                    self.selected_index -= 1;
                    if self.selected_index < self.scroll_offset {
                        self.scroll_offset = self.selected_index;
                    }
                }
                KeyboardResponse::Consume
            },
            KeyCode::Down => {
                self.selected_index = self.selected_index.saturating_add(1);
                KeyboardResponse::Consume
            },
            KeyCode::PageUp => {
                self.selected_index = self.selected_index.saturating_sub(PAGE_STEP);
                self.scroll_offset = self.scroll_offset.saturating_sub(PAGE_STEP);
                KeyboardResponse::Consume
            },
            KeyCode::PageDown => {
                self.selected_index = self.selected_index.saturating_add(PAGE_STEP);
                KeyboardResponse::Consume
            },
            KeyCode::Home => {
                self.selected_index = 0;
                self.scroll_offset = 0;
                KeyboardResponse::Consume
            },
            KeyCode::End => {
                self.selected_index = usize::MAX;
                KeyboardResponse::Consume
            },
            _ => KeyboardResponse::Pass,
        }
    }

    /// Fits the selection and the scroll position to a list of `len`
    /// entries of which `visible_height` can be drawn.
    pub fn fit(&mut self, len: usize, visible_height: usize)
        ensures
            *final(self) == fitted(*old(self), len as int, visible_height as int),
    {
        if len == 0 || visible_height == 0 {
            return ;
        }
        if self.selected_index > len - 1 {
            self.selected_index = len - 1;
        }
        let max_scroll = len.saturating_sub(visible_height);
        if self.scroll_offset > max_scroll {
            self.scroll_offset = max_scroll;
        }
        if self.selected_index >= self.scroll_offset && self.selected_index - self.scroll_offset
            >= visible_height {
            self.scroll_offset = self.selected_index - visible_height + 1;
        }
    }
}

impl Default for ErrorsTab {
    fn default() -> (tab: Self)
        ensures
            tab == (ErrorsTab { scroll_offset: 0, selected_index: 0, show_grouped: true }),
    {
        ErrorsTab::new()
    }
}

/// After fitting, the selected entry exists and is among those drawn, and the
/// list is not scrolled past its end.
pub proof fn fitted_selection_is_drawn(tab: ErrorsTab, len: int, visible: int)
    requires
        0 < len <= usize::MAX,
        0 < visible,
    ensures
        fitted(tab, len, visible).selected_index < len,
        fitted(tab, len, visible).selected_index < fitted(tab, len, visible).scroll_offset
            + visible,
        fitted(tab, len, visible).scroll_offset <= minus(len, visible) || fitted(
            tab,
            len,
            visible,
        ).scroll_offset <= fitted(tab, len, visible).selected_index,
        tab.scroll_offset <= tab.selected_index ==> fitted(tab, len, visible).scroll_offset
            <= fitted(tab, len, visible).selected_index,
{
}

/// No key moves the first drawn entry past the selection.
pub proof fn keys_keep_selection_below_scroll(tab: ErrorsTab, key: KeyCode)
    requires
        tab.scroll_offset <= tab.selected_index,
    ensures
        errors_after_key(tab, key).scroll_offset <= errors_after_key(tab, key).selected_index,
{
}

/// The errors with one message.
#[derive(Debug)]
pub struct ErrorGroup {
    pub message: String,
    /// How often the message was logged.
    pub count: usize,
    /// The files that logged it, each once, in the order of their first
    /// error.
    pub files: Vec<usize>,
}

/// The mathematical value of an [`ErrorGroup`].
pub struct ErrorGroupView {
    pub message: Seq<char>,
    pub count: usize,
    pub files: Seq<usize>,
}

impl View for ErrorGroup {
    type V = ErrorGroupView;

    open spec fn view(&self) -> ErrorGroupView {
        ErrorGroupView { message: self.message@, count: self.count, files: self.files@ }
    }
}

/// The values of a list of groups.
pub open spec fn group_views(groups: Seq<ErrorGroup>) -> Seq<ErrorGroupView> {
    groups.map_values(|g: ErrorGroup| g@)
}

/// The errors of file `file`, each with the number of the file.
pub open spec fn tagged(errors: Seq<Seq<char>>, file: usize) -> Seq<(usize, Seq<char>)> {
    errors.map_values(|m: Seq<char>| (file, m))
}

/// Every error of every file with the number of its file, file after file.
pub open spec fn all_errors(files: Seq<ProgressView>) -> Seq<(usize, Seq<char>)>
    decreases files.len(),
{
    if files.len() == 0 {
        Seq::empty()
    } else {
        all_errors(files.drop_last()) + tagged(files.last().errors, (files.len() - 1) as usize)
    }
}

/// The position of the group with the message `message`.
pub open spec fn group_of(groups: Seq<ErrorGroupView>, message: Seq<char>) -> Option<int>
    decreases groups.len(),
{
    if groups.len() == 0 {
        None
    } else if group_of(groups.drop_last(), message) is Some {
        group_of(groups.drop_last(), message)
    } else if groups.last().message == message {
        Some(groups.len() - 1)
    } else {
        None
    }
}

/// The groups with one more error: its group counts one more and knows the
/// file; a message that is new gets a group of its own at the end.
pub open spec fn with_one(groups: Seq<ErrorGroupView>, file: usize, message: Seq<char>) -> Seq<
    ErrorGroupView,
> {
    match group_of(groups, message) {
        Some(i) => groups.update(
            i,
            ErrorGroupView {
                message,
                count: plus(groups[i].count as int, 1) as usize,
                files: if groups[i].files.contains(file) {
                    groups[i].files
                } else {
                    groups[i].files.push(file)
                },
            },
        ),
        None => groups.push(ErrorGroupView { message, count: 1, files: seq![file] }),
    }
}

/// The errors grouped by message, in the order in which the messages first
/// appear.
pub open spec fn grouped(errors: Seq<(usize, Seq<char>)>) -> Seq<ErrorGroupView>
    decreases errors.len(),
{
    if errors.len() == 0 {
        Seq::empty()
    } else {
        with_one(grouped(errors.drop_last()), errors.last().0, errors.last().1)
    }
}

/// Where a group with the count `count` goes in a list that is ordered by
/// falling counts: behind every group that counts at least as much.
pub open spec fn place_index(ordered: Seq<ErrorGroupView>, count: usize) -> int
    decreases ordered.len(),
{
    if ordered.len() == 0 {
        0
    } else if ordered[0].count < count {
        0
    } else {
        1 + place_index(ordered.drop_first(), count)
    }
}

/// `rest` put one by one into `ordered`.
pub open spec fn placed_all(rest: Seq<ErrorGroupView>, ordered: Seq<ErrorGroupView>) -> Seq<
    ErrorGroupView,
>
    decreases rest.len(),
{
    if rest.len() == 0 {
        ordered
    } else {
        placed_all(rest.drop_first(), ordered.insert(place_index(ordered, rest[0].count), rest[0]))
    }
}

/// The groups ordered by falling counts; groups that count the same keep
/// their order.
pub open spec fn by_count(groups: Seq<ErrorGroupView>) -> Seq<ErrorGroupView> {
    placed_all(groups, Seq::empty())
}

/// Whether the counts never rise along the list.
pub open spec fn falling(groups: Seq<ErrorGroupView>) -> bool {
    forall|i: int, j: int| 0 <= i < j < groups.len() ==> groups[i].count >= groups[j].count
}

/// The place of a group lies in the list; all groups before it count at
/// least as much, and the group at the place, if there is one, counts less.
pub proof fn place_index_properties(ordered: Seq<ErrorGroupView>, count: usize)
    ensures
        0 <= place_index(ordered, count) <= ordered.len(),
        forall|i: int| 0 <= i < place_index(ordered, count) ==> ordered[i].count >= count,
        place_index(ordered, count) < ordered.len() ==> ordered[place_index(
            ordered,
            count,
        )].count < count,
    decreases ordered.len(),
{
    if ordered.len() > 0 && ordered[0].count >= count {
        let rest = ordered.drop_first();
        place_index_properties(rest, count);
        assert forall|i: int| 0 <= i < place_index(ordered, count) implies ordered[i].count
            >= count by {
            if i > 0 {
                assert(ordered[i] == rest[i - 1]);
            }
        }
        if place_index(ordered, count) < ordered.len() {
            assert(ordered[place_index(ordered, count)] == rest[place_index(rest, count)]);
        }
    }
}

/// Putting groups into a list with falling counts keeps the counts falling
/// and neither loses nor invents a group.
pub proof fn placed_all_properties(rest: Seq<ErrorGroupView>, ordered: Seq<ErrorGroupView>)
    requires
        falling(ordered),
    ensures
        falling(placed_all(rest, ordered)),
        placed_all(rest, ordered).to_multiset() == ordered.to_multiset().add(rest.to_multiset()),
        placed_all(rest, ordered).len() == ordered.len() + rest.len(),
    decreases rest.len(),
{
    broadcast use vstd::seq_lib::group_to_multiset_ensures;

    if rest.len() == 0 {
        assert(rest.to_multiset() =~= vstd::multiset::Multiset::empty());
        assert(ordered.to_multiset().add(rest.to_multiset()) =~= ordered.to_multiset());
    } else {
        let g = rest[0];
        let p = place_index(ordered, g.count);
        place_index_properties(ordered, g.count);
        let next = ordered.insert(p, g);
        assert(falling(next)) by {
            assert forall|i: int, j: int| 0 <= i < j < next.len() implies next[i].count
                >= next[j].count by {
                if j < p {
                    assert(next[i] == ordered[i] && next[j] == ordered[j]);
                } else if j == p {
                    assert(next[i] == ordered[i]);
                } else if i < p {
                    assert(next[i] == ordered[i] && next[j] == ordered[j - 1]);
                    if j - 1 >= p && p < ordered.len() {
                        assert(ordered[i].count >= ordered[j - 1].count || i == j - 1);
                    }
                } else if i == p {
                    assert(next[j] == ordered[j - 1]);
                    assert(ordered[p].count < g.count);
                    assert(p <= j - 1);
                    if p < j - 1 {
                        assert(ordered[p].count >= ordered[j - 1].count);
                    }
                } else {
                    assert(next[i] == ordered[i - 1] && next[j] == ordered[j - 1]);
                }
            }
        }
        placed_all_properties(rest.drop_first(), next);
        vstd::seq_lib::to_multiset_insert(ordered, p, g);
        assert(rest =~= seq![g] + rest.drop_first());
        vstd::seq_lib::lemma_multiset_commutative(seq![g], rest.drop_first());
        assert(seq![g].to_multiset() =~= vstd::multiset::Multiset::empty().insert(g)) by {
            vstd::seq_lib::to_multiset_build(Seq::<ErrorGroupView>::empty(), g);
            assert(Seq::<ErrorGroupView>::empty().push(g) =~= seq![g]);
            assert(Seq::<ErrorGroupView>::empty().to_multiset() =~= vstd::multiset::Multiset::empty());
        }
        assert(next.to_multiset().add(rest.drop_first().to_multiset()) =~= ordered.to_multiset().add(
            rest.to_multiset(),
        ));
    }
}

/// The groups by count are the same groups, with counts that never rise.
pub proof fn by_count_properties(groups: Seq<ErrorGroupView>)
    ensures
        falling(by_count(groups)),
        by_count(groups).to_multiset() == groups.to_multiset(),
        by_count(groups).len() == groups.len(),
{
    broadcast use vstd::seq_lib::group_to_multiset_ensures;

    placed_all_properties(groups, Seq::empty());
    assert(Seq::<ErrorGroupView>::empty().to_multiset() =~= vstd::multiset::Multiset::empty());
    assert(vstd::multiset::Multiset::<ErrorGroupView>::empty().add(groups.to_multiset())
        =~= groups.to_multiset());
}

fn find_group(groups: &Vec<ErrorGroup>, message: &String) -> (r: Option<usize>)
    ensures
        r is Some <==> group_of(group_views(groups@), message@) is Some,
        r is Some ==> r->0 < groups@.len() && group_of(group_views(groups@), message@) == Some(
            r->0 as int,
        ) && groups@[r->0 as int]@.message == message@,
{
    let ghost views = group_views(groups@);
    let mut i: usize = 0;
    assert(views.take(0) =~= Seq::<ErrorGroupView>::empty());
    while i < groups.len()
        invariant
            i <= groups.len(),
            views == group_views(groups@),
            group_of(views.take(i as int), message@) is None,
        decreases groups.len() - i,
    {
        proof {
            assert(views.take(i + 1).drop_last() =~= views.take(i as int));
            assert(views.take(i + 1).last() == groups@[i as int]@);
        }
        if groups[i].message == *message {
            proof {
                found_stays_found(views, i + 1, message@);
                found_in_range(views, message@);
                assert(group_of(views.take(i + 1), message@) == Some(i as int));
            }
            return Some(i);
        }
        i += 1;
    }
    assert(views.take(groups.len() as int) =~= views);
    None
}

/// A message found among the first `n` groups is found at the same place
/// among all.
proof fn found_stays_found(groups: Seq<ErrorGroupView>, n: int, message: Seq<char>)
    requires
        0 <= n <= groups.len(),
        group_of(groups.take(n), message) is Some,
    ensures
        group_of(groups, message) == group_of(groups.take(n), message),
        group_of(groups, message)->0 < n,
    decreases groups.len() - n,
{
    if n < groups.len() {
        assert(groups.take(n + 1).drop_last() =~= groups.take(n));
        found_stays_found(groups, n + 1, message);
        found_in_range(groups.take(n), message);
    } else {
        assert(groups.take(n) =~= groups);
        found_in_range(groups, message);
    }
}

proof fn found_in_range(groups: Seq<ErrorGroupView>, message: Seq<char>)
    ensures
        group_of(groups, message) is Some ==> 0 <= group_of(groups, message)->0 < groups.len()
            && groups[group_of(groups, message)->0].message == message,
    decreases groups.len(),
{
    if groups.len() > 0 {
        found_in_range(groups.drop_last(), message);
    }
}

fn knows_file(files: &Vec<usize>, file: usize) -> (b: bool)
    ensures
        b == files@.contains(file),
{
    let mut i: usize = 0;
    while i < files.len()
        invariant
            i <= files.len(),
            forall|j: int| 0 <= j < i ==> files@[j] != file,
        decreases files.len() - i,
    {
        if files[i] == file {
            return true;
        }
        i += 1;
    }
    false
}

fn add_error(groups: &mut Vec<ErrorGroup>, file: usize, message: &String)
    ensures
        group_views(final(groups)@) == with_one(group_views(old(groups)@), file, message@),
{
    let ghost before = group_views(groups@);
    match find_group(groups, message) {
        Some(i) => {
            let ghost was = groups@;
            let ghost g = groups@[i as int]@;
            assert(group_of(before, message@) == Some(i as int));
            assert(g.message == message@);
            let count = groups[i].count.saturating_add(1);
            groups[i].count = count;
            let known = knows_file(&groups[i].files, file);
            if !known {
                groups[i].files.push(file);
            }
            proof {
                let now = groups@;
                assert(now.len() == was.len());
                assert(now[i as int]@.message == message@);
                assert(now[i as int]@.count == plus(g.count as int, 1));
                assert(now[i as int]@.files == (if g.files.contains(file) {
                    g.files
                } else {
                    g.files.push(file)
                }));
                let expected = with_one(before, file, message@);
                assert(expected.len() == before.len());
                assert forall|j: int| 0 <= j < now.len() implies (#[trigger] group_views(now)[j])
                    == expected[j] by {
                    if j != i {
                        assert(now[j] == was[j]);
                    }
                }
                assert(group_views(groups@) =~= expected);
            }
        },
        None => {
            let mut files: Vec<usize> = Vec::new();
            files.push(file);
            groups.push(ErrorGroup { message: message.clone(), count: 1, files });
            assert(group_views(groups@) =~= with_one(before, file, message@));
        },
    }
}

fn place_of(ordered: &Vec<ErrorGroup>, count: usize) -> (p: usize)
    ensures
        p == place_index(group_views(ordered@), count),
        p <= ordered@.len(),
{
    let ghost views = group_views(ordered@);
    let mut i: usize = 0;
    assert(views.skip(0) =~= views);
    while i < ordered.len()
        invariant
            i <= ordered.len(),
            views == group_views(ordered@),
            place_index(views, count) == i + place_index(views.skip(i as int), count),
        decreases ordered.len() - i,
    {
        proof {
            assert(views.skip(i as int)[0] == ordered@[i as int]@);
            assert(views.skip(i as int).drop_first() =~= views.skip(i + 1));
        }
        if ordered[i].count < count {
            return i;
        }
        i += 1;
    }
    assert(views.skip(ordered.len() as int) =~= Seq::<ErrorGroupView>::empty());
    i
}

/// Orders the groups by falling counts.
pub fn sort_by_count(groups: Vec<ErrorGroup>) -> (ordered: Vec<ErrorGroup>)
    ensures
        group_views(ordered@) == by_count(group_views(groups@)),
{
    let mut rest = groups;
    let mut ordered: Vec<ErrorGroup> = Vec::new();
    assert(group_views(ordered@) =~= Seq::empty());
    while rest.len() > 0
        invariant
            placed_all(group_views(rest@), group_views(ordered@)) == by_count(
                group_views(groups@),
            ),
        decreases rest.len(),
    {
        let ghost r = group_views(rest@);
        let ghost o = group_views(ordered@);
        let g = rest.remove(0);
        let p = place_of(&ordered, g.count);
        ordered.insert(p, g);
        proof {
            assert(g@ == r[0]);
            assert(group_views(rest@) =~= r.drop_first());
            assert(group_views(ordered@) =~= o.insert(p as int, g@));
        }
    }
    assert(group_views(rest@) =~= Seq::<ErrorGroupView>::empty());
    ordered
}

/// The errors of file `n` follow those of the files before it.
pub proof fn all_errors_step(files: Seq<ProgressView>, n: int)
    requires
        0 <= n < files.len(),
    ensures
        all_errors(files.take(n + 1)) == all_errors(files.take(n)) + tagged(
            files[n].errors,
            n as usize,
        ),
{
    assert(files.take(n + 1).drop_last() =~= files.take(n));
    assert(files.take(n + 1).last() == files[n]);
}

/// Groups the errors of all files by message, the most frequent first.
pub fn group_errors(mft_files: &Vec<MftFileProgress>) -> (groups: Vec<ErrorGroup>)
    ensures
        group_views(groups@) == by_count(grouped(all_errors(progress_views(mft_files@)))),
{
    let ghost views = progress_views(mft_files@);
    let mut groups: Vec<ErrorGroup> = Vec::new();
    let mut f: usize = 0;
    proof {
        assert(views.take(0) =~= Seq::<ProgressView>::empty());
        assert(group_views(groups@) =~= Seq::empty());
    }
    while f < mft_files.len()
        invariant
            f <= mft_files.len(),
            views == progress_views(mft_files@),
            group_views(groups@) == grouped(all_errors(views.take(f as int))),
        decreases mft_files.len() - f,
    {
        let ghost head = all_errors(views.take(f as int));
        let errors = &mft_files[f].errors;
        let ghost messages = crate::text::texts(errors@);
        proof {
            all_errors_step(views, f as int);
            assert(views[f as int].errors == messages);
            assert(tagged(messages.take(0), f) =~= Seq::<(usize, Seq<char>)>::empty());
            assert(head + tagged(messages.take(0), f) =~= head);
        }
        let mut e: usize = 0;
        while e < errors.len()
            invariant
                e <= errors.len(),
                messages == crate::text::texts(errors@),
                group_views(groups@) == grouped(head + tagged(messages.take(e as int), f)),
            decreases errors.len() - e,
        {
            let ghost upto = head + tagged(messages.take(e as int), f);
            let ghost next = head + tagged(messages.take(e + 1), f);
            proof {
                assert(messages.take(e + 1) =~= messages.take(e as int).push(messages[e as int]));
                assert(next =~= upto.push((f, messages[e as int])));
                assert(next.drop_last() =~= upto);
                assert(next.last() == (f, errors@[e as int]@));
            }
            add_error(&mut groups, f, &errors[e]);
            e += 1;
        }
        proof {
            assert(messages.take(errors.len() as int) =~= messages);
        }
        f += 1;
    }
    assert(views.take(mft_files.len() as int) =~= views);
    sort_by_count(groups)
}

/// The number of errors of all files, cut off at the largest value of the
/// machine.
pub open spec fn error_count(files: Seq<ProgressView>) -> usize {
    if all_errors(files).len() > usize::MAX {
        usize::MAX
    } else {
        all_errors(files).len() as usize
    }
}

/// Counts the errors of all files.
pub fn count_errors(mft_files: &Vec<MftFileProgress>) -> (total: usize)
    ensures
        total == error_count(progress_views(mft_files@)),
{
    let ghost views = progress_views(mft_files@);
    let mut total: usize = 0;
    let mut i: usize = 0;
    assert(views.take(0) =~= Seq::<ProgressView>::empty());
    while i < mft_files.len()
        invariant
            i <= mft_files.len(),
            views == progress_views(mft_files@),
            total == error_count(views.take(i as int)),
        decreases mft_files.len() - i,
    {
        proof {
            all_errors_step(views, i as int);
            assert(views[i as int].errors.len() == mft_files@[i as int].errors@.len());
        }
        total = total.saturating_add(mft_files[i].errors.len());
        i += 1;
    }
    assert(views.take(mft_files.len() as int) =~= views);
    total
}

} // verus!
