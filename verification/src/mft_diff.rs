//! Byte-level comparison of two MFT dumps.
//!
//! The dumps are compared in chunks of 4096 bytes, as far as the shorter
//! one reaches. A quiet comparison stops after the first chunk that holds a
//! difference; a verbose one lists differences up to a limit and then only
//! counts what follows.

use vstd::prelude::*;
use vstd::string::*;
use crate::numbers::hundredths;
use crate::numbers::hundredths_text;
use crate::text::decimal;
use crate::text::decimal_string;
use crate::text::framed;
use crate::text::joined;
use crate::text::texts;
use crate::to_args::push_all;
use crate::to_args::push_string;

verus! {

/// Number of bytes that are compared at a time.
pub const CHUNK: usize = 4096;

/// Number of differences that a verbose comparison lists where no limit is
/// given.
pub const DEFAULT_MAX_DIFFS: usize = 10;

/// A first difference before this offset counts as early.
pub const EARLY_OFFSET: u64 = 1024;

/// One differing byte.
#[derive(Clone, Copy, Debug, PartialEq, Eq, Structural)]
pub struct ByteDifference {
    pub position: u64,
    pub left: u8,
    pub right: u8,
}

/// How two dumps relate.
#[derive(Clone, Copy, Debug, PartialEq, Eq, Structural)]
pub enum Verdict {
    /// The same bytes, and as many.
    Identical,
    /// No differing byte was found, but one dump is longer.
    LengthOnly,
    /// One differing byte was found.
    VerySimilar,
    /// Several were found, the first within the first 1024 bytes.
    DivergeEarly,
    /// Several were found, the first later.
    DivergeLater,
}

/// Where the shorter of two dumps ends.
#[derive(Clone, Copy, Debug, PartialEq, Eq, Structural)]
pub struct LengthDifference {
    /// `1` if the first dump is the shorter one, `2` if the second.
    pub shorter_file: u8,
    /// The length of the shorter dump.
    pub ends_at: u64,
}

/// The result of a comparison.
#[derive(Debug)]
pub struct DiffReport {
    pub size1: u64,
    pub size2: u64,
    /// The absolute difference of the sizes.
    pub size_difference: u64,
    /// Set where the sizes differ.
    pub length_difference: Option<LengthDifference>,
    /// The differences that a verbose comparison lists.
    pub shown: Vec<ByteDifference>,
    /// Where the limit of a verbose comparison was reached: the number of
    /// differences that were only counted.
    pub remaining: Option<usize>,
    pub first_difference: Option<u64>,
    pub differences_found: usize,
    pub verdict: Verdict,
}

/// The mathematical value of a [`DiffReport`].
pub struct DiffModel {
    pub size1: u64,
    pub size2: u64,
    pub size_difference: u64,
    pub length_difference: Option<LengthDifference>,
    pub shown: Seq<ByteDifference>,
    pub remaining: Option<usize>,
    pub first_difference: Option<u64>,
    pub differences_found: usize,
    pub verdict: Verdict,
}

impl View for DiffReport {
    type V = DiffModel;

    open spec fn view(&self) -> DiffModel {
        DiffModel {
            size1: self.size1,
            size2: self.size2,
            size_difference: self.size_difference,
            length_difference: self.length_difference,
            shown: self.shown@,
            remaining: self.remaining,
            first_difference: self.first_difference,
            differences_found: self.differences_found,
            verdict: self.verdict,
        }
    }
}

/// The smaller of two numbers.
pub open spec fn smaller(x: int, y: int) -> int {
    if x <= y {
        x
    } else {
        y
    }
}

/// The larger of two numbers.
pub open spec fn larger(x: int, y: int) -> int {
    if x >= y {
        x
    } else {
        y
    }
}

/// The positions below `hi` at which `a` and `b` differ, in ascending order.
pub open spec fn diff_positions(a: Seq<u8>, b: Seq<u8>, hi: int) -> Seq<int>
    decreases hi,
{
    if hi <= 0 {
        Seq::empty()
    } else if a[hi - 1] != b[hi - 1] {
        diff_positions(a, b, hi - 1).push(hi - 1)
    } else {
        diff_positions(a, b, hi - 1)
    }
}

/// The number of positions in `lo..hi` at which `a` and `b` differ.
pub open spec fn count_between(a: Seq<u8>, b: Seq<u8>, lo: int, hi: int) -> nat
    decreases hi - lo,
{
    if hi <= lo {
        0
    } else {
        count_between(a, b, lo, hi - 1) + if a[hi - 1] != b[hi - 1] {
            1nat
        } else {
            0nat
        }
    }
}

/// How far two dumps of the lengths `n1` and `n2` are compared byte by
/// byte: as far as the shorter one reaches.
pub open spec fn compared_len(n1: int, n2: int) -> int {
    smaller(n1, n2)
}

/// The end of the chunk that holds position `p`, within the compared part.
pub open spec fn chunk_end(p: int, compared: int) -> int {
    smaller((p / (CHUNK as int) + 1) * CHUNK, compared)
}

/// The bytes by which the longer dump exceeds the shorter one: each counts
/// as a difference that is not listed.
pub open spec fn surplus(n1: int, n2: int) -> int {
    larger(n1, n2) - smaller(n1, n2)
}

/// The difference at position `p`.
pub open spec fn difference_at(a: Seq<u8>, b: Seq<u8>, p: int) -> ByteDifference {
    ByteDifference { position: p as u64, left: a[p], right: b[p] }
}

/// The differences at the given positions.
pub open spec fn differences_at(a: Seq<u8>, b: Seq<u8>, positions: Seq<int>) -> Seq<
    ByteDifference,
> {
    positions.map_values(|p: int| difference_at(a, b, p))
}

/// The number of differences at which a verbose comparison with the limit
/// `max` stops listing: the limit, but at least one.
pub open spec fn stop_count(max: int) -> int {
    if max < 1 {
        1
    } else {
        max
    }
}

pub open spec fn verdict_of(
    equal_length: bool,
    found: int,
    first_difference: Option<u64>,
) -> Verdict {
    if found == 0 {
        if equal_length {
            Verdict::Identical
        } else {
            Verdict::LengthOnly
        }
    } else if found == 1 {
        Verdict::VerySimilar
    } else if first_difference is Some && first_difference->0 < EARLY_OFFSET {
        Verdict::DivergeEarly
    } else {
        Verdict::DivergeLater
    }
}

/// The result of comparing `a` and `b`.
///
/// Bytes are compared up to `compared_len`. A quiet comparison counts the
/// differences of the first chunk that holds one. A verbose comparison
/// counts and lists them one by one; once their number reaches the limit
/// (or one, where the limit is zero), it gives up the rest of that chunk and
/// only counts what differs in the chunks after it, to which it adds the
/// surplus of the longer dump.
pub open spec fn diff_model(a: Seq<u8>, b: Seq<u8>, verbose: bool, max_diffs: Option<usize>)
    -> DiffModel {
    let n1 = a.len() as int;
    let n2 = b.len() as int;
    let c = compared_len(n1, n2);
    let all = diff_positions(a, b, c);
    let max = match max_diffs {
        Some(m) => m as int,
        None => DEFAULT_MAX_DIFFS as int,
    };
    let first_difference = if all.len() > 0 {
        Some(all[0] as u64)
    } else {
        None
    };
    let stop = stop_count(max);
    let found = if all.len() == 0 {
        0
    } else if !verbose {
        count_between(a, b, 0, chunk_end(all[0], c)) as int
    } else if all.len() < stop {
        all.len() as int
    } else {
        stop
    };
    DiffModel {
        size1: n1 as u64,
        size2: n2 as u64,
        size_difference: (larger(n1, n2) - smaller(n1, n2)) as u64,
        length_difference: if n1 == n2 {
            None
        } else {
            Some(
                LengthDifference {
                    shorter_file: if n1 < n2 {
                        1u8
                    } else {
                        2u8
                    },
                    ends_at: smaller(n1, n2) as u64,
                },
            )
        },
        shown: if verbose {
            differences_at(a, b, all.take(smaller(max, all.len() as int)))
        } else {
            Seq::empty()
        },
        remaining: if verbose && all.len() >= stop {
            Some(
                (count_between(a, b, chunk_end(all[stop - 1], c), c) + surplus(n1, n2)) as usize,
            )
        } else {
            None
        },
        first_difference,
        differences_found: found as usize,
        verdict: verdict_of(n1 == n2, found, first_difference),
    }
}

/// The differing positions below `hi` begin with those below `lo`; the
/// others are not below `lo`, and there are as many of them as
/// `count_between` counts.
pub proof fn positions_grow(a: Seq<u8>, b: Seq<u8>, lo: int, hi: int)
    requires
        0 <= lo <= hi,
    ensures
        diff_positions(a, b, lo).len() <= diff_positions(a, b, hi).len(),
        diff_positions(a, b, hi).take(diff_positions(a, b, lo).len() as int) == diff_positions(
            a,
            b,
            lo,
        ),
        diff_positions(a, b, hi).len() == diff_positions(a, b, lo).len() + count_between(
            a,
            b,
            lo,
            hi,
        ),
        forall|i: int|
            diff_positions(a, b, lo).len() <= i < diff_positions(a, b, hi).len() ==> lo
                <= #[trigger] diff_positions(a, b, hi)[i],
    decreases hi - lo,
{
    let now = diff_positions(a, b, hi);
    let low = diff_positions(a, b, lo);
    if lo < hi {
        positions_grow(a, b, lo, hi - 1);
        let prev = diff_positions(a, b, hi - 1);
        assert(now.take(low.len() as int) =~= prev.take(low.len() as int));
        assert forall|i: int| low.len() <= i < now.len() implies lo <= #[trigger] now[i] by {
            if i < prev.len() {
                assert(now[i] == prev[i]);
            }
        }
    } else {
        assert(now.take(now.len() as int) =~= now);
    }
}

/// Every differing position below `hi` is a position below `hi`.
pub proof fn positions_in_range(a: Seq<u8>, b: Seq<u8>, hi: int)
    ensures
        forall|i: int|
            0 <= i < diff_positions(a, b, hi).len() ==> 0 <= #[trigger] diff_positions(a, b, hi)[i]
                < hi,
    decreases hi,
{
    if hi > 0 {
        positions_in_range(a, b, hi - 1);
        let prev = diff_positions(a, b, hi - 1);
        let now = diff_positions(a, b, hi);
        assert forall|i: int| 0 <= i < now.len() implies 0 <= #[trigger] now[i] < hi by {
            if i < prev.len() {
                assert(now[i] == prev[i]);
            }
        }
    }
}

/// Two dumps are identical exactly when they are equally long and differ
/// at no position.
pub proof fn identical_means_equal(a: Seq<u8>, b: Seq<u8>, verbose: bool, max_diffs: Option<usize>)
    requires
        a.len() <= usize::MAX,
        b.len() <= usize::MAX,
    ensures
        diff_model(a, b, verbose, max_diffs).verdict == Verdict::Identical <==> a == b,
        a == b ==> diff_model(a, b, verbose, max_diffs).differences_found == 0 && diff_model(
            a,
            b,
            verbose,
            max_diffs,
        ).first_difference is None && diff_model(a, b, verbose, max_diffs).length_difference
            is None,
{
    let n = a.len() as int;
    let c = compared_len(a.len() as int, b.len() as int);
    let all = diff_positions(a, b, c);
    if a.len() == b.len() {
        no_positions_means_equal(a, b, n);
        if all.len() == 0 {
            assert(a =~= b);
        } else {
            positions_in_range(a, b, c);
            positions_differ(a, b, c, 0);
            let max = match max_diffs {
                Some(m) => m as int,
                None => DEFAULT_MAX_DIFFS as int,
            };
            if !verbose {
                positions_grow(a, b, 0, chunk_end(all[0], c));
                first_is_counted(a, b, c);
            }
        }
    }
}

proof fn no_positions_means_equal(a: Seq<u8>, b: Seq<u8>, hi: int)
    requires
        0 <= hi <= a.len(),
        hi <= b.len(),
    ensures
        diff_positions(a, b, hi).len() == 0 <==> (forall|i: int| 0 <= i < hi ==> a[i] == b[i]),
    decreases hi,
{
    if hi > 0 {
        no_positions_means_equal(a, b, hi - 1);
        if a[hi - 1] == b[hi - 1] {
            assert forall|i: int| 0 <= i < hi && (forall|j: int| 0 <= j < hi - 1 ==> a[j]
                == b[j]) implies a[i] == b[i] by {
                if i < hi - 1 {
                }
            }
        }
    }
}

/// Every listed position is one at which the dumps differ.
pub proof fn positions_differ(a: Seq<u8>, b: Seq<u8>, hi: int, i: int)
    requires
        0 <= i < diff_positions(a, b, hi).len(),
    ensures
        a[diff_positions(a, b, hi)[i]] != b[diff_positions(a, b, hi)[i]],
    decreases hi,
{
    if hi > 0 {
        let prev = diff_positions(a, b, hi - 1);
        if i < prev.len() {
            positions_differ(a, b, hi - 1, i);
        }
    }
}

/// The chunk of the first difference holds at least that difference.
proof fn first_is_counted(a: Seq<u8>, b: Seq<u8>, c: int)
    requires
        0 <= c,
        diff_positions(a, b, c).len() > 0,
    ensures
        count_between(a, b, 0, chunk_end(diff_positions(a, b, c)[0], c)) >= 1,
{
    let all = diff_positions(a, b, c);
    let p = all[0];
    positions_in_range(a, b, c);
    positions_differ(a, b, c, 0);
    let e = chunk_end(p, c);
    assert((p / 4096 + 1) * 4096 > p) by (nonlinear_arith)
        requires
            p >= 0,
    ;
    assert(p < e);
    count_holds(a, b, 0, e, p);
}

/// A range that holds a differing position counts at least one.
proof fn count_holds(a: Seq<u8>, b: Seq<u8>, lo: int, hi: int, p: int)
    requires
        lo <= p < hi,
        a[p] != b[p],
    ensures
        count_between(a, b, lo, hi) >= 1,
    decreases hi - lo,
{
    if p < hi - 1 {
        count_holds(a, b, lo, hi - 1, p);
    }
}

/// Counting over adjoining ranges adds up, and no range counts more
/// differences than it has positions.
pub proof fn count_split(a: Seq<u8>, b: Seq<u8>, lo: int, mid: int, hi: int)
    requires
        lo <= mid <= hi,
    ensures
        count_between(a, b, lo, hi) == count_between(a, b, lo, mid) + count_between(a, b, mid, hi),
        count_between(a, b, lo, hi) <= hi - lo,
    decreases hi - mid,
{
    if mid < hi {
        count_split(a, b, lo, mid, hi - 1);
    } else {
        count_bounded(a, b, lo, hi);
    }
}

proof fn count_bounded(a: Seq<u8>, b: Seq<u8>, lo: int, hi: int)
    requires
        lo <= hi,
    ensures
        count_between(a, b, lo, hi) <= hi - lo,
    decreases hi - lo,
{
    if lo < hi {
        count_bounded(a, b, lo, hi - 1);
    }
}

fn compared_length(n1: usize, n2: usize) -> (c: usize)
    ensures
        c == compared_len(n1 as int, n2 as int),
        c <= n1,
        c <= n2,
{
    if n1 < n2 {
        n1
    } else {
        n2
    }
}

fn end_of_chunk(p: usize, compared: usize) -> (e: usize)
    requires
        p < compared,
    ensures
        e == chunk_end(p as int, compared as int),
        p < e <= compared,
{
    let start = (p / CHUNK) * CHUNK;
    assert((p / 4096) * 4096 <= p && p < (p / 4096) * 4096 + 4096 && (p / 4096 + 1) * 4096 == (p
        / 4096) * 4096 + 4096) by (nonlinear_arith);
    if compared - start <= CHUNK {
        compared
    } else {
        start + CHUNK
    }
}

fn surplus_of(n1: usize, n2: usize) -> (s: usize)
    ensures
        s == surplus(n1 as int, n2 as int),
        s + compared_len(n1 as int, n2 as int) == larger(n1 as int, n2 as int),
{
    if n1 < n2 {
        n2 - n1
    } else {
        n1 - n2
    }
}

/// Counts the positions in `lo..hi` at which `a` and `b` differ.
pub fn count_differences(a: &[u8], b: &[u8], lo: usize, hi: usize) -> (n: usize)
    requires
        lo <= hi,
        hi <= a.len(),
        hi <= b.len(),
    ensures
        n == count_between(a@, b@, lo as int, hi as int),
        n <= hi - lo,
{
    let mut n: usize = 0;
    let mut i: usize = lo;
    while i < hi
        invariant
            lo <= i <= hi,
            hi <= a.len(),
            hi <= b.len(),
            n == count_between(a@, b@, lo as int, i as int),
            n <= i - lo,
        decreases hi - i,
    {
        if a[i] != b[i] {
            n += 1;
        }
        i += 1;
    }
    n
}

fn judge(equal_length: bool, found: usize, first_difference: Option<u64>) -> (v: Verdict)
    ensures
        v == verdict_of(equal_length, found as int, first_difference),
{
    if found == 0 {
        if equal_length {
            Verdict::Identical
        } else {
            Verdict::LengthOnly
        }
    } else if found == 1 {
        Verdict::VerySimilar
    } else {
        match first_difference {
            Some(p) => if p < EARLY_OFFSET {
                Verdict::DivergeEarly
            } else {
                Verdict::DivergeLater
            },
            None => Verdict::DivergeLater,
        }
    }
}

/// Compares two dumps byte by byte.
///
/// `verbose` asks for a list of the differences, up to `max_diffs` of them
/// (ten where none is given).
pub fn diff_mft_files(file1: &[u8], file2: &[u8], verbose: bool, max_diffs: Option<usize>) -> (r:
    DiffReport)
    ensures
        r@ == diff_model(file1@, file2@, verbose, max_diffs),
{
    let ghost a = file1@;
    let ghost b = file2@;
    let n1 = file1.len();
    let n2 = file2.len();
    let c = compared_length(n1, n2);
    let ghost all = diff_positions(a, b, c as int);
    let max: usize = match max_diffs {
        Some(m) => m,
        None => DEFAULT_MAX_DIFFS,
    };
    let stop: usize = if max < 1 {
        1
    } else {
        max
    };
    let length_difference = if n1 == n2 {
        None
    } else {
        Some(
            LengthDifference {
                shorter_file: if n1 < n2 {
                    1
                } else {
                    2
                },
                ends_at: if n1 < n2 {
                    n1 as u64
                } else {
                    n2 as u64
                },
            },
        )
    };
    let size_difference = if n1 < n2 {
        (n2 - n1) as u64
    } else {
        (n1 - n2) as u64
    };
    let mut shown: Vec<ByteDifference> = Vec::new();
    let mut remaining: Option<usize> = None;
    let mut first_difference: Option<u64> = None;
    let mut found: usize = 0;
    let mut i: usize = 0;
    proof {
        assert(diff_positions(a, b, 0).take(0) =~= Seq::<int>::empty());
        assert(shown@ =~= differences_at(a, b, Seq::<int>::empty()));
    }
    while i < c
        invariant_except_break
            found == diff_positions(a, b, i as int).len(),
            found < stop,
            verbose || found == 0,
            remaining is None,
            shown@ == (if verbose {
                differences_at(
                    a,
                    b,
                    diff_positions(a, b, i as int).take(smaller(max as int, found as int)),
                )
            } else {
                Seq::empty()
            }),
            first_difference == (if found > 0 {
                Some(diff_positions(a, b, i as int)[0] as u64)
            } else {
                None
            }),
        invariant
            i <= c,
            c <= n1,
            c <= n2,
            n1 == a.len(),
            n2 == b.len(),
            a == file1@,
            b == file2@,
            c == compared_len(n1 as int, n2 as int),
            all == diff_positions(a, b, c as int),
            stop == stop_count(max as int),
        ensures
            i <= c,
            remaining is Some ==> verbose && all.len() >= stop && found == stop && remaining
                == Some(
                (count_between(a, b, chunk_end(all[stop - 1], c as int), c as int) + surplus(
                    n1 as int,
                    n2 as int,
                )) as usize,
            ),
            remaining is None && verbose ==> found == all.len() && found < stop,
            remaining is None && !verbose ==> (found == (if all.len() == 0 {
                0
            } else {
                count_between(a, b, 0, chunk_end(all[0], c as int)) as int
            })),
            shown@ == (if verbose {
                differences_at(a, b, all.take(smaller(max as int, all.len() as int)))
            } else {
                Seq::empty()
            }),
            first_difference == (if all.len() > 0 {
                Some(all[0] as u64)
            } else {
                None
            }),
        decreases c - i,
    {
        let ghost before = diff_positions(a, b, i as int);
        if file1[i] != file2[i] {
            let ghost now = diff_positions(a, b, i + 1);
            proof {
                assert(now == before.push(i as int));
                positions_grow(a, b, i + 1, c as int);
                assert(all.take(now.len() as int) == now);
                assert(all[before.len() as int] == now[before.len() as int]);
                if before.len() > 0 {
                    assert(all[0] == now[0]);
                    assert(now[0] == before[0]);
                }
            }
            if first_difference.is_none() {
                first_difference = Some(i as u64);
            }
            if !verbose {
                let e = end_of_chunk(i, c);
                found = count_differences(file1, file2, i, e);
                proof {
                    positions_grow(a, b, 0, i as int);
                    count_split(a, b, 0, i as int, e as int);
                    assert(all[0] == i);
                }
                break ;
            }
            if found < max {
                shown.push(ByteDifference { position: i as u64, left: file1[i], right: file2[i] });
                proof {
                    let k = smaller(max as int, found as int);
                    assert(k == found);
                    assert(before.take(k) =~= before);
                    assert(now.take(k + 1) =~= now);
                    assert(differences_at(a, b, now) =~= differences_at(a, b, before).push(
                        difference_at(a, b, i as int),
                    ));
                }
            } else {
                proof {
                    assert(now.take(max as int) =~= before.take(max as int));
                }
            }
            found += 1;
            if found >= stop {
                let e = end_of_chunk(i, c);
                let rest = count_differences(file1, file2, e, c);
                let extra = surplus_of(n1, n2);
                proof {
                    assert(all[stop - 1] == i);
                    assert(all.take(max as int) =~= now.take(max as int));
                    assert(smaller(max as int, all.len() as int) == max);
                    assert(smaller(max as int, found as int) == max);
                }
                remaining = Some(rest + extra);
                break ;
            }
        }
        i += 1;
    }
    proof {
        if remaining is None && i == c {
            assert(diff_positions(a, b, c as int) == all);
        }
    }
    let verdict = judge(n1 == n2, found, first_difference);
    DiffReport {
        size1: n1 as u64,
        size2: n2 as u64,
        size_difference,
        length_difference,
        shown,
        remaining,
        first_difference,
        differences_found: found,
        verdict,
    }
}

/// The hexadecimal digit of `d`, for `d < 16`, in upper case.
pub open spec fn hex_digit(d: int) -> char {
    if d == 0 {
        '0'
    } else if d == 1 {
        '1'
    } else if d == 2 {
        '2'
    } else if d == 3 {
        '3'
    } else if d == 4 {
        '4'
    } else if d == 5 {
        '5'
    } else if d == 6 {
        '6'
    } else if d == 7 {
        '7'
    } else if d == 8 {
        '8'
    } else if d == 9 {
        '9'
    } else if d == 10 {
        'A'
    } else if d == 11 {
        'B'
    } else if d == 12 {
        'C'
    } else if d == 13 {
        'D'
    } else if d == 14 {
        'E'
    } else {
        'F'
    }
}

/// A byte in two hexadecimal digits.
pub open spec fn hex_text(b: u8) -> Seq<char> {
    seq![hex_digit(b as int / 16), hex_digit(b as int % 16)]
}

fn hex_char(d: u8) -> (c: char)
    requires
        d < 16,
    ensures
        c == hex_digit(d as int),
{
    if d == 0 {
        '0'
    } else if d == 1 {
        '1'
    } else if d == 2 {
        '2'
    } else if d == 3 {
        '3'
    } else if d == 4 {
        '4'
    } else if d == 5 {
        '5'
    } else if d == 6 {
        '6'
    } else if d == 7 {
        '7'
    } else if d == 8 {
        '8'
    } else if d == 9 {
        '9'
    } else if d == 10 {
        'A'
    } else if d == 11 {
        'B'
    } else if d == 12 {
        'C'
    } else if d == 13 {
        'D'
    } else if d == 14 {
        'E'
    } else {
        'F'
    }
}

/// Writes a byte in two hexadecimal digits.
pub fn hex_byte(b: u8) -> (s: String)
    ensures
        s@ == hex_text(b),
{
    let mut s = String::new();
    s.push(hex_char(b / 16));
    s.push(hex_char(b % 16));
    assert(s@ =~= hex_text(b));
    s
}

/// The line of one differing byte: where it is, and both bytes in
/// hexadecimal and in decimal.
pub open spec fn difference_text(d: ByteDifference) -> Seq<char> {
    "Difference at byte "@ + decimal(d.position as nat) + ": 0x"@ + hex_text(d.left) + " vs 0x"@
        + hex_text(d.right) + " (decimal: "@ + decimal(d.left as nat) + " vs "@ + decimal(
        d.right as nat,
    ) + ")"@
}

fn write_difference(d: &ByteDifference) -> (s: String)
    ensures
        s@ == difference_text(*d),
{
    let position = decimal_string(d.position);
    let mut s = framed("Difference at byte ", position.as_str(), ": 0x");
    let left = hex_byte(d.left);
    s.append(left.as_str());
    s.append(" vs 0x");
    let right = hex_byte(d.right);
    s.append(right.as_str());
    s.append(" (decimal: ");
    let left = decimal_string(d.left as u64);
    s.append(left.as_str());
    s.append(" vs ");
    let right = decimal_string(d.right as u64);
    s.append(right.as_str());
    s.append(")");
    s
}

/// What stands above the comparison: the two files and their sizes.
pub open spec fn opening_text(m: DiffModel, file1: Seq<char>, file2: Seq<char>) -> Seq<Seq<char>> {
    seq![
        "Comparing MFT files:"@,
        "  File 1: "@ + file1,
        "  File 2: "@ + file2,
        Seq::empty(),
        "File sizes:"@,
        "  File 1: "@ + decimal(m.size1 as nat) + " bytes"@,
        "  File 2: "@ + decimal(m.size2 as nat) + " bytes"@,
        "  Difference: "@ + decimal(m.size_difference as nat) + " bytes"@,
        Seq::empty(),
    ]
}

/// The differences that are listed, the note on those that were only
/// counted, and the note on the lengths.
pub open spec fn findings_text(m: DiffModel) -> Seq<Seq<char>> {
    let listed = Seq::new(m.shown.len(), |i: int| difference_text(m.shown[i]));
    let counted = match m.remaining {
        Some(more) => listed.push(
            "... and "@ + decimal(more as nat) + " more differences (use --max-diffs to see more)"@,
        ),
        None => listed,
    };
    match m.length_difference {
        Some(l) => counted + seq![
            "Files differ in length:"@,
            "  File "@ + decimal(l.shorter_file as nat) + " ends at position "@ + decimal(
                l.ends_at as nat,
            ),
            "  File "@ + decimal(
                if l.shorter_file == 1 {
                    2nat
                } else {
                    1nat
                },
            ) + " continues beyond this point"@,
        ],
        None => counted,
    }
}

/// The sentence that goes with a verdict.
pub open spec fn verdict_text(verdict: Verdict) -> Seq<char> {
    match verdict {
        Verdict::Identical => "  Files are identical!"@,
        Verdict::LengthOnly => "  Files agree as far as the shorter one reaches"@,
        Verdict::VerySimilar => "  Files are very similar (only 1 byte differs)"@,
        Verdict::DivergeEarly => "  Files diverge very early (likely different headers/metadata)"@,
        Verdict::DivergeLater => "  Files are mostly similar initially, then diverge"@,
    }
}

/// Where the first difference lies, as a byte and as a share of the shorter
/// file, where there is a difference.
pub open spec fn first_text(m: DiffModel) -> Seq<Seq<char>> {
    match m.first_difference {
        Some(first) => {
            let at = seq!["  First difference at byte: "@ + decimal(first as nat)];
            let shorter = if m.size1 <= m.size2 {
                m.size1
            } else {
                m.size2
            };
            if shorter > 0 {
                at.push("  As percentage of file: "@ + hundredths_text(first, shorter))
            } else {
                at
            }
        },
        None => Seq::empty(),
    }
}

/// The summary: for dumps without a differing byte the verdict alone,
/// otherwise the first difference, the number of differences and the
/// verdict.
pub open spec fn closing_text(m: DiffModel) -> Seq<Seq<char>> {
    if m.verdict == Verdict::Identical || m.verdict == Verdict::LengthOnly {
        seq!["Summary:"@, verdict_text(m.verdict)]
    } else {
        seq!["Summary:"@] + first_text(m) + seq![
            "  Total differences found: "@ + decimal(m.differences_found as nat),
            verdict_text(m.verdict),
        ]
    }
}

/// The report of a comparison, line by line.
pub open spec fn report_text(m: DiffModel, file1: Seq<char>, file2: Seq<char>) -> Seq<Seq<char>> {
    opening_text(m, file1, file2) + findings_text(m) + closing_text(m)
}

fn sentence(verdict: Verdict) -> (s: String)
    ensures
        s@ == verdict_text(verdict),
{
    String::from_str(
        match verdict {
            Verdict::Identical => "  Files are identical!",
            Verdict::LengthOnly => "  Files agree as far as the shorter one reaches",
            Verdict::VerySimilar => "  Files are very similar (only 1 byte differs)",
            Verdict::DivergeEarly => "  Files diverge very early (likely different headers/metadata)",
            Verdict::DivergeLater => "  Files are mostly similar initially, then diverge",
        },
    )
}

fn write_opening(report: &DiffReport, file1: &str, file2: &str) -> (lines: Vec<String>)
    ensures
        texts(lines@) == opening_text(report@, file1@, file2@),
{
    let mut lines: Vec<String> = Vec::new();
    assert(texts(lines@) =~= Seq::<Seq<char>>::empty());
    push_string(&mut lines, String::from_str("Comparing MFT files:"));
    push_string(&mut lines, joined("  File 1: ", file1));
    push_string(&mut lines, joined("  File 2: ", file2));
    push_string(&mut lines, String::new());
    push_string(&mut lines, String::from_str("File sizes:"));
    let size1 = decimal_string(report.size1);
    push_string(&mut lines, framed("  File 1: ", size1.as_str(), " bytes"));
    let size2 = decimal_string(report.size2);
    push_string(&mut lines, framed("  File 2: ", size2.as_str(), " bytes"));
    let difference = decimal_string(report.size_difference);
    push_string(&mut lines, framed("  Difference: ", difference.as_str(), " bytes"));
    push_string(&mut lines, String::new());
    assert(texts(lines@) =~= opening_text(report@, file1@, file2@));
    lines
}

fn write_findings(report: &DiffReport) -> (lines: Vec<String>)
    ensures
        texts(lines@) == findings_text(report@),
{
    let mut lines: Vec<String> = Vec::new();
    let mut i: usize = 0;
    assert(texts(lines@) =~= Seq::new(0, |k: int| difference_text(report.shown@[k])));
    while i < report.shown.len()
        invariant
            i <= report.shown.len(),
            texts(lines@) == Seq::new(i as nat, |k: int| difference_text(report.shown@[k])),
        decreases report.shown.len() - i,
    {
        let ghost before = texts(lines@);
        push_string(&mut lines, write_difference(&report.shown[i]));
        assert(Seq::new((i + 1) as nat, |k: int| difference_text(report.shown@[k])) =~= before.push(
            difference_text(report.shown@[i as int]),
        ));
        i += 1;
    }
    let ghost listed = texts(lines@);
    assert(listed =~= Seq::new(report@.shown.len(), |k: int| difference_text(report@.shown[k])));
    match report.remaining {
        Some(more) => {
            let count = decimal_string(more as u64);
            push_string(
                &mut lines,
                framed("... and ", count.as_str(), " more differences (use --max-diffs to see more)"),
            );
        },
        None => {},
    }
    let ghost counted = texts(lines@);
    match report.length_difference {
        Some(l) => {
            push_string(&mut lines, String::from_str("Files differ in length:"));
            let shorter = decimal_string(l.shorter_file as u64);
            let mut ends = framed("  File ", shorter.as_str(), " ends at position ");
            let at = decimal_string(l.ends_at);
            ends.append(at.as_str());
            push_string(&mut lines, ends);
            let longer = decimal_string(
                if l.shorter_file == 1 {
                    2
                } else {
                    1
                },
            );
            push_string(
                &mut lines,
                framed("  File ", longer.as_str(), " continues beyond this point"),
            );
            assert(texts(lines@) =~= counted + seq![
                "Files differ in length:"@,
                "  File "@ + decimal(l.shorter_file as nat) + " ends at position "@ + decimal(
                    l.ends_at as nat,
                ),
                "  File "@ + decimal(
                    if l.shorter_file == 1 {
                        2nat
                    } else {
                        1nat
                    },
                ) + " continues beyond this point"@,
            ]);
        },
        None => {},
    }
    lines
}

fn write_first(report: &DiffReport) -> (lines: Vec<String>)
    ensures
        texts(lines@) == first_text(report@),
{
    let mut lines: Vec<String> = Vec::new();
    assert(texts(lines@) =~= Seq::<Seq<char>>::empty());
    match report.first_difference {
        Some(first) => {
            let at = decimal_string(first);
            push_string(&mut lines, joined("  First difference at byte: ", at.as_str()));
            let shorter = if report.size1 <= report.size2 {
                report.size1
            } else {
                report.size2
            };
            if shorter > 0 {
                let share = hundredths(first, shorter);
                push_string(&mut lines, joined("  As percentage of file: ", share.as_str()));
            }
            assert(texts(lines@) =~= first_text(report@));
        },
        None => {},
    }
    lines
}

fn write_closing(report: &DiffReport) -> (lines: Vec<String>)
    ensures
        texts(lines@) == closing_text(report@),
{
    let mut lines: Vec<String> = Vec::new();
    assert(texts(lines@) =~= Seq::<Seq<char>>::empty());
    push_string(&mut lines, String::from_str("Summary:"));
    match report.verdict {
        Verdict::Identical | Verdict::LengthOnly => {
            push_string(&mut lines, sentence(report.verdict));
            assert(texts(lines@) =~= closing_text(report@));
        },
        _ => {
            assert(texts(lines@) =~= seq!["Summary:"@]);
            push_all(&mut lines, write_first(report));
            let ghost upto = texts(lines@);
            let count = decimal_string(report.differences_found as u64);
            push_string(&mut lines, joined("  Total differences found: ", count.as_str()));
            push_string(&mut lines, sentence(report.verdict));
            assert(texts(lines@) =~= upto + seq![
                "  Total differences found: "@ + decimal(report@.differences_found as nat),
                verdict_text(report@.verdict),
            ]);
        },
    }
    lines
}

/// Writes the report of a comparison of the files with the given names.
pub fn report_lines(report: &DiffReport, file1: &str, file2: &str) -> (lines: Vec<String>)
    ensures
        texts(lines@) == report_text(report@, file1@, file2@),
{
    let mut lines = write_opening(report, file1, file2);
    push_all(&mut lines, write_findings(report));
    push_all(&mut lines, write_closing(report));
    lines
}

} // verus!
