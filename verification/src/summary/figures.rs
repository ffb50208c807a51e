//! The attribute types that came most often.

use vstd::prelude::*;
use crate::summary::progress::AttributeCount;

verus! {

/// The place of the first of the largest counts.
pub open spec fn first_largest(counts: Seq<AttributeCount>) -> int
    decreases counts.len(),
{
    if counts.len() <= 1 {
        0
    } else {
        let before = first_largest(counts.drop_last());
        if counts.last().count > counts[before].count {
            counts.len() - 1
        } else {
            before
        }
    }
}

/// The `n` largest counts, the largest first; of equal counts the one that
/// stands first comes first.
pub open spec fn top_counts(counts: Seq<AttributeCount>, n: nat) -> Seq<AttributeCount>
    decreases n,
{
    if n == 0 || counts.len() == 0 {
        Seq::empty()
    } else {
        let i = first_largest(counts);
        seq![counts[i]] + top_counts(counts.remove(i), (n - 1) as nat)
    }
}

/// The first of the largest counts stands in the list, nothing before it is
/// as large, and nothing at all is larger.
pub proof fn first_largest_properties(counts: Seq<AttributeCount>)
    requires
        counts.len() > 0,
    ensures
        0 <= first_largest(counts) < counts.len(),
        forall|j: int|
            0 <= j < counts.len() ==> (#[trigger] counts[j]).count <= counts[first_largest(
                counts,
            )].count,
        forall|j: int|
            0 <= j < first_largest(counts) ==> (#[trigger] counts[j]).count < counts[first_largest(
                counts,
            )].count,
    decreases counts.len(),
{
    if counts.len() > 1 {
        let head = counts.drop_last();
        first_largest_properties(head);
        let before = first_largest(head);
        assert(head[before] == counts[before]);
        assert forall|j: int| 0 <= j < counts.len() implies (#[trigger] counts[j]).count
            <= counts[first_largest(counts)].count by {
            if j < counts.len() - 1 {
                assert(head[j] == counts[j]);
            }
        }
        assert forall|j: int| 0 <= j < first_largest(counts) implies (#[trigger] counts[j]).count
            < counts[first_largest(counts)].count by {
            assert(head[j] == counts[j]);
        }
    }
}

/// The largest counts are as many as asked for, or all there are; they
/// fall from one to the next; and each is one of the counts.
pub proof fn top_counts_properties(counts: Seq<AttributeCount>, n: nat)
    ensures
        top_counts(counts, n).len() == (if n < counts.len() {
            n
        } else {
            counts.len()
        }),
        forall|i: int, j: int|
            0 <= i < j < top_counts(counts, n).len() ==> top_counts(counts, n)[i].count
                >= top_counts(counts, n)[j].count,
        forall|i: int|
            0 <= i < top_counts(counts, n).len() ==> counts.contains(
                #[trigger] top_counts(counts, n)[i],
            ),
    decreases n,
{
    if n > 0 && counts.len() > 0 {
        let first = first_largest(counts);
        first_largest_properties(counts);
        let rest = counts.remove(first);
        top_counts_properties(rest, (n - 1) as nat);
        let top = top_counts(counts, n);
        let tail = top_counts(rest, (n - 1) as nat);
        assert(top =~= seq![counts[first]] + tail);
        assert forall|i: int| 0 <= i < tail.len() implies counts.contains(#[trigger] tail[i])
            && tail[i].count <= counts[first].count by {
            assert(rest.contains(tail[i]));
            let k = choose|k: int| 0 <= k < rest.len() && rest[k] == tail[i];
            if k < first {
                assert(rest[k] == counts[k]);
            } else {
                assert(rest[k] == counts[k + 1]);
            }
        }
        assert forall|i: int| 0 <= i < top.len() implies counts.contains(#[trigger] top[i]) by {
            if i > 0 {
                assert(top[i] == tail[i - 1]);
            }
        }
        assert forall|i: int, j: int| 0 <= i < j < top.len() implies top[i].count
            >= top[j].count by {
            assert(top[j] == tail[j - 1]);
            if i > 0 {
                assert(top[i] == tail[i - 1]);
            }
        }
    }
}

fn find_first_largest(counts: &Vec<AttributeCount>) -> (i: usize)
    requires
        counts@.len() > 0,
    ensures
        i == first_largest(counts@),
        i < counts@.len(),
{
    let mut best: usize = 0;
    let mut k: usize = 1;
    assert(counts@.take(1).drop_last() =~= Seq::<AttributeCount>::empty());
    while k < counts.len()
        invariant
            1 <= k <= counts.len(),
            best < k,
            best == first_largest(counts@.take(k as int)),
        decreases counts.len() - k,
    {
        proof {
            let upto = counts@.take(k + 1);
            assert(upto.drop_last() =~= counts@.take(k as int));
            assert(upto.last() == counts@[k as int]);
            assert(upto[best as int] == counts@[best as int]);
        }
        if counts[k].count > counts[best].count {
            best = k;
        }
        k += 1;
    }
    assert(counts@.take(counts.len() as int) =~= counts@);
    best
}

/// Picks the `n` largest counts, the largest first.
pub fn largest_counts(counts: &Vec<AttributeCount>, n: usize) -> (top: Vec<AttributeCount>)
    ensures
        top@ == top_counts(counts@, n as nat),
{
    let mut rest: Vec<AttributeCount> = counts.clone();
    assert(rest@ =~= counts@);
    let mut top: Vec<AttributeCount> = Vec::new();
    let mut left: usize = n;
    while left > 0 && rest.len() > 0
        invariant
            top@ + top_counts(rest@, left as nat) == top_counts(counts@, n as nat),
        decreases left,
    {
        let i = find_first_largest(&rest);
        let ghost before = top@;
        let ghost all = rest@;
        let picked = rest.remove(i);
        top.push(picked);
        left -= 1;
        assert(top@ + top_counts(rest@, left as nat) =~= before + top_counts(all, (left + 1) as nat));
    }
    assert(top_counts(rest@, left as nat) =~= Seq::<AttributeCount>::empty());
    assert(top@ + Seq::<AttributeCount>::empty() =~= top@);
    top
}

} // verus!
