//! Paths in alphabetical order, component by component: character by
//! character, where a separator comes before every other character. So a
//! path stands before every path that it begins, and `a/b` before `a-b`, as
//! the directory `a` stands before the name `a-b`.

use vstd::prelude::*;
use crate::text::chars_of;
use crate::text::texts;

verus! {

/// The place of a character in the order: a separator of either kind comes
/// before every other character, and the others come by their number.
pub open spec fn rank(c: char) -> int {
    if c == '/' || c == '\\' {
        -1
    } else {
        c as u32 as int
    }
}

/// Whether `a` comes before `b` or counts the same: at the first place
/// where they differ in rank `a` has the lower one, or `a` ends there.
pub open spec fn text_le(a: Seq<char>, b: Seq<char>) -> bool
    decreases a.len(),
{
    if a.len() == 0 {
        true
    } else if b.len() == 0 {
        false
    } else if rank(a[0]) != rank(b[0]) {
        rank(a[0]) < rank(b[0])
    } else {
        text_le(a.skip(1), b.skip(1))
    }
}

fn rank_of(c: char) -> (r: i64)
    ensures
        r == rank(c),
{
    if c == '/' || c == '\\' {
        -1
    } else {
        c as u32 as i64
    }
}

/// Of two texts one comes before the other, or they count the same.
pub proof fn text_le_total(a: Seq<char>, b: Seq<char>)
    ensures
        text_le(a, b) || text_le(b, a),
    decreases a.len(),
{
    if a.len() > 0 && b.len() > 0 && rank(a[0]) == rank(b[0]) {
        text_le_total(a.skip(1), b.skip(1));
    }
}

/// What comes before a text comes before every text behind that one.
pub proof fn text_le_transitive(a: Seq<char>, b: Seq<char>, c: Seq<char>)
    requires
        text_le(a, b),
        text_le(b, c),
    ensures
        text_le(a, c),
    decreases a.len(),
{
    if a.len() > 0 && b.len() > 0 && c.len() > 0 && rank(a[0]) == rank(b[0]) && rank(b[0])
        == rank(c[0]) {
        text_le_transitive(a.skip(1), b.skip(1), c.skip(1));
    }
}

/// Two texts of which each comes before the other are as long and have
/// the same rank at every place: they differ in the kind of their
/// separators at most.
pub proof fn text_le_both_ways(a: Seq<char>, b: Seq<char>)
    requires
        text_le(a, b),
        text_le(b, a),
    ensures
        a.len() == b.len(),
        forall|i: int| 0 <= i < a.len() ==> rank(#[trigger] a[i]) == rank(b[i]),
    decreases a.len(),
{
    if a.len() > 0 && b.len() > 0 {
        text_le_both_ways(a.skip(1), b.skip(1));
        assert forall|i: int| 0 <= i < a.len() implies rank(#[trigger] a[i]) == rank(b[i]) by {
            if i > 0 {
                assert(a[i] == a.skip(1)[i - 1]);
                assert(b[i] == b.skip(1)[i - 1]);
            }
        }
    }
}

/// Tells whether `a` comes before `b` or counts the same.
pub fn text_at_most(a: &str, b: &str) -> (r: bool)
    ensures
        r == text_le(a@, b@),
{
    let left = chars_of(a);
    let right = chars_of(b);
    let mut i: usize = 0;
    assert(a@.skip(0) =~= a@ && b@.skip(0) =~= b@);
    loop
        invariant
            i <= left.len(),
            i <= right.len(),
            left@ == a@,
            right@ == b@,
            text_le(a@, b@) == text_le(a@.skip(i as int), b@.skip(i as int)),
        decreases left.len() - i,
    {
        if i == left.len() {
            return true;
        }
        if i == right.len() {
            return false;
        }
        proof {
            assert(a@.skip(i as int)[0] == a@[i as int]);
            assert(b@.skip(i as int)[0] == b@[i as int]);
            assert(a@.skip(i as int).skip(1) =~= a@.skip(i + 1));
            assert(b@.skip(i as int).skip(1) =~= b@.skip(i + 1));
        }
        if rank_of(left[i]) != rank_of(right[i]) {
            return rank_of(left[i]) < rank_of(right[i]);
        }
        i += 1;
    }
}

/// Whether the texts stand in alphabetical order.
pub open spec fn ascending(items: Seq<Seq<char>>) -> bool {
    forall|i: int, j: int| 0 <= i < j < items.len() ==> text_le(items[i], items[j])
}

/// Where `x` goes in a list in alphabetical order: behind every text that
/// comes before it or is the same.
pub open spec fn place_of(ordered: Seq<Seq<char>>, x: Seq<char>) -> int
    decreases ordered.len(),
{
    if ordered.len() == 0 {
        0
    } else if !text_le(ordered[0], x) {
        0
    } else {
        1 + place_of(ordered.drop_first(), x)
    }
}

/// `rest` put one by one into `ordered`.
pub open spec fn placed(rest: Seq<Seq<char>>, ordered: Seq<Seq<char>>) -> Seq<Seq<char>>
    decreases rest.len(),
{
    if rest.len() == 0 {
        ordered
    } else {
        placed(rest.drop_first(), ordered.insert(place_of(ordered, rest[0]), rest[0]))
    }
}

/// The texts in alphabetical order; texts that count the same keep their
/// order.
pub open spec fn in_order(items: Seq<Seq<char>>) -> Seq<Seq<char>> {
    placed(items, Seq::empty())
}

/// The place of a text lies in the list; every text before it comes before
/// the text or is the same, and the text at the place, if there is one,
/// comes behind it.
pub proof fn place_of_properties(ordered: Seq<Seq<char>>, x: Seq<char>)
    ensures
        0 <= place_of(ordered, x) <= ordered.len(),
        forall|i: int| 0 <= i < place_of(ordered, x) ==> text_le(#[trigger] ordered[i], x),
        place_of(ordered, x) < ordered.len() ==> !text_le(ordered[place_of(ordered, x)], x),
    decreases ordered.len(),
{
    if ordered.len() > 0 && text_le(ordered[0], x) {
        let rest = ordered.drop_first();
        place_of_properties(rest, x);
        assert forall|i: int| 0 <= i < place_of(ordered, x) implies text_le(
            #[trigger] ordered[i],
            x,
        ) by {
            if i > 0 {
                assert(ordered[i] == rest[i - 1]);
            }
        }
        if place_of(ordered, x) < ordered.len() {
            assert(ordered[place_of(ordered, x)] == rest[place_of(rest, x)]);
        }
    }
}

/// Putting texts into a list in alphabetical order keeps the order and
/// neither loses nor invents a text.
pub proof fn placed_properties(rest: Seq<Seq<char>>, ordered: Seq<Seq<char>>)
    requires
        ascending(ordered),
    ensures
        ascending(placed(rest, ordered)),
        placed(rest, ordered).to_multiset() == ordered.to_multiset().add(rest.to_multiset()),
        placed(rest, ordered).len() == ordered.len() + rest.len(),
    decreases rest.len(),
{
    broadcast use vstd::seq_lib::group_to_multiset_ensures;

    if rest.len() == 0 {
        assert(rest.to_multiset() =~= vstd::multiset::Multiset::empty());
        assert(ordered.to_multiset().add(rest.to_multiset()) =~= ordered.to_multiset());
    } else {
        let x = rest[0];
        let p = place_of(ordered, x);
        place_of_properties(ordered, x);
        let next = ordered.insert(p, x);
        assert(ascending(next)) by {
            assert forall|i: int, j: int| 0 <= i < j < next.len() implies text_le(
                next[i],
                next[j],
            ) by {
                if j < p {
                    assert(next[i] == ordered[i] && next[j] == ordered[j]);
                } else if j == p {
                    assert(next[i] == ordered[i]);
                } else if i < p {
                    assert(next[i] == ordered[i] && next[j] == ordered[j - 1]);
                } else if i == p {
                    assert(next[j] == ordered[j - 1]);
                    text_le_total(ordered[p], x);
                    if p < j - 1 {
                        text_le_transitive(x, ordered[p], ordered[j - 1]);
                    }
                } else {
                    assert(next[i] == ordered[i - 1] && next[j] == ordered[j - 1]);
                }
            }
        }
        placed_properties(rest.drop_first(), next);
        vstd::seq_lib::to_multiset_insert(ordered, p, x);
        assert(rest =~= seq![x] + rest.drop_first());
        vstd::seq_lib::lemma_multiset_commutative(seq![x], rest.drop_first());
        assert(seq![x].to_multiset() =~= vstd::multiset::Multiset::empty().insert(x)) by {
            vstd::seq_lib::to_multiset_build(Seq::<Seq<char>>::empty(), x);
            assert(Seq::<Seq<char>>::empty().push(x) =~= seq![x]);
            assert(Seq::<Seq<char>>::empty().to_multiset() =~= vstd::multiset::Multiset::empty());
        }
        assert(next.to_multiset().add(rest.drop_first().to_multiset()) =~= ordered.to_multiset().add(
            rest.to_multiset(),
        ));
    }
}

/// The texts in order are the same texts, as many, in alphabetical order.
pub proof fn in_order_properties(items: Seq<Seq<char>>)
    ensures
        ascending(in_order(items)),
        in_order(items).to_multiset() == items.to_multiset(),
        in_order(items).len() == items.len(),
{
    broadcast use vstd::seq_lib::group_to_multiset_ensures;

    placed_properties(items, Seq::empty());
    assert(Seq::<Seq<char>>::empty().to_multiset() =~= vstd::multiset::Multiset::empty());
    assert(vstd::multiset::Multiset::<Seq<char>>::empty().add(items.to_multiset())
        =~= items.to_multiset());
}

fn find_place(ordered: &Vec<String>, x: &str) -> (p: usize)
    ensures
        p == place_of(texts(ordered@), x@),
        p <= ordered@.len(),
{
    let ghost views = texts(ordered@);
    let mut i: usize = 0;
    assert(views.skip(0) =~= views);
    while i < ordered.len()
        invariant
            i <= ordered.len(),
            views == texts(ordered@),
            place_of(views, x@) == i + place_of(views.skip(i as int), x@),
        decreases ordered.len() - i,
    {
        proof {
            assert(views.skip(i as int)[0] == ordered@[i as int]@);
            assert(views.skip(i as int).drop_first() =~= views.skip(i + 1));
        }
        if !text_at_most(ordered[i].as_str(), x) {
            return i;
        }
        i += 1;
    }
    assert(views.skip(ordered.len() as int) =~= Seq::<Seq<char>>::empty());
    i
}

/// Puts texts into alphabetical order.
pub fn sort_texts(items: Vec<String>) -> (ordered: Vec<String>)
    ensures
        texts(ordered@) == in_order(texts(items@)),
        ascending(texts(ordered@)),
        texts(ordered@).to_multiset() == texts(items@).to_multiset(),
{
    let mut rest = items;
    let mut ordered: Vec<String> = Vec::new();
    assert(texts(ordered@) =~= Seq::empty());
    while rest.len() > 0
        invariant
            placed(texts(rest@), texts(ordered@)) == in_order(texts(items@)),
        decreases rest.len(),
    {
        let ghost r = texts(rest@);
        let ghost o = texts(ordered@);
        let x = rest.remove(0);
        let p = find_place(&ordered, x.as_str());
        let ghost text = x@;
        ordered.insert(p, x);
        proof {
            assert(text == r[0]);
            assert(texts(rest@) =~= r.drop_first());
            assert(texts(ordered@) =~= o.insert(p as int, text));
        }
    }
    proof {
        assert(texts(rest@) =~= Seq::<Seq<char>>::empty());
        in_order_properties(texts(items@));
    }
    ordered
}

} // verus!
