//! The update sequence array of a record: every 512-byte stride ends in a
//! two-byte check value; what the stride really ends in is kept in the array.

use vstd::prelude::*;
use crate::mft::layout::SECTOR_STRIDE;

verus! {

/// Whether the array and the strides it protects lie inside the record.
pub open spec fn fixup_layout_ok(b: Seq<u8>, usa_offset: int, usa_size: int) -> bool {
    &&& usa_size >= 1
    &&& usa_offset + 2 * usa_size <= b.len()
    &&& (usa_size - 1) * SECTOR_STRIDE <= b.len()
}

/// Whether stride `k` ends in the check value, the first entry of the array.
pub open spec fn stride_intact(b: Seq<u8>, usa_offset: int, k: int) -> bool {
    &&& b[(k + 1) * SECTOR_STRIDE - 2] == b[usa_offset]
    &&& b[(k + 1) * SECTOR_STRIDE - 1] == b[usa_offset + 1]
}

/// Whether every protected stride ends in the check value.
pub open spec fn fixups_verified(b: Seq<u8>, usa_offset: int, usa_size: int) -> bool {
    forall|k: int| 0 <= k < usa_size - 1 ==> #[trigger] stride_intact(b, usa_offset, k)
}

/// Byte `i` of the record once the saved bytes are back in place.
pub open spec fn fixed_byte(b: Seq<u8>, usa_offset: int, usa_size: int, i: int) -> u8 {
    let k = i / (SECTOR_STRIDE as int);
    let r = i % (SECTOR_STRIDE as int);
    if r >= SECTOR_STRIDE - 2 && k < usa_size - 1 {
        b[usa_offset + 2 + 2 * k + (r - (SECTOR_STRIDE - 2))]
    } else {
        b[i]
    }
}

/// The record with the last two bytes of each protected stride replaced by
/// the matching entry of the array.
pub open spec fn with_fixups(b: Seq<u8>, usa_offset: int, usa_size: int) -> Seq<u8> {
    Seq::new(b.len(), |i: int| fixed_byte(b, usa_offset, usa_size, i))
}

/// Tests that the array described by the header lies inside `record`.
pub fn check_fixup_layout(record: &[u8], usa_offset: u16, usa_size: u16) -> (ok: bool)
    ensures
        ok == fixup_layout_ok(record@, usa_offset as int, usa_size as int),
{
    if usa_size < 1 {
        return false;
    }
    let len: u64 = record.len() as u64;
    let array_end: u64 = usa_offset as u64 + 2 * (usa_size as u64);
    let strides_end: u64 = (usa_size as u64 - 1) * 512;
    array_end <= len && strides_end <= len
}

/// Verifies and undoes the fixups of one record.
///
/// Returns the restored bytes and whether every stride carried the check
/// value.
pub fn apply_fixups(record: &[u8], usa_offset: u16, usa_size: u16) -> (out: (Vec<u8>, bool))
    requires
        fixup_layout_ok(record@, usa_offset as int, usa_size as int),
    ensures
        out.0@ == with_fixups(record@, usa_offset as int, usa_size as int),
        out.1 == fixups_verified(record@, usa_offset as int, usa_size as int),
{
    let ghost b = record@;
    let ghost uo = usa_offset as int;
    let ghost us = usa_size as int;
    let mut data: Vec<u8> = Vec::with_capacity(record.len());
    let mut i: usize = 0;
    while i < record.len()
        invariant
            i <= record.len(),
            b == record@,
            data@ == b.subrange(0, i as int),
        decreases record.len() - i,
    {
        data.push(record[i]);
        proof {
            assert(b.subrange(0, i as int).push(b[i as int]) =~= b.subrange(0, i + 1));
        }
        i += 1;
    }
    proof {
        assert(b.subrange(0, b.len() as int) =~= b);
    }
    let strides: usize = (usa_size - 1) as usize;
    let base: usize = usa_offset as usize;
    let mut intact = true;
    let mut k: usize = 0;
    while k < strides
        invariant
            k <= strides,
            strides == us - 1,
            base == uo,
            uo == usa_offset as int,
            b == record@,
            fixup_layout_ok(b, uo, us),
            data@.len() == b.len(),
            forall|j: int|
                0 <= j < b.len() ==> #[trigger] data@[j] == (if j < k * 512 {
                    fixed_byte(b, uo, us, j)
                } else {
                    b[j]
                }),
            intact == (forall|q: int| 0 <= q < k ==> #[trigger] stride_intact(b, uo, q)),
        decreases strides - k,
    {
        assert((k + 1) * 512 <= (us - 1) * 512) by (nonlinear_arith)
            requires
                k + 1 <= us - 1,
        ;
        assert((us - 1) * 512 <= b.len());
        assert(b.len() == record.len());
        let tail: usize = (k + 1) * 512 - 2;
        let saved: usize = base + 2 + 2 * k;
        let here = record[tail] == record[base] && record[tail + 1] == record[base + 1];
        assert(here == stride_intact(b, uo, k as int));
        let ghost before = data@;
        let lo = record[saved];
        let hi = record[saved + 1];
        data.set(tail, lo);
        data.set(tail + 1, hi);
        proof {
            assert forall|j: int| 0 <= j < b.len() implies #[trigger] data@[j] == (if j < (k + 1)
                * 512 {
                fixed_byte(b, uo, us, j)
            } else {
                b[j]
            }) by {
                if j < k * 512 {
                    assert(data@[j] == before[j]);
                } else if j < (k + 1) * 512 {
                    assert(j / 512 == k as int && j % 512 == j - k * 512) by (nonlinear_arith)
                        requires
                            k * 512 <= j < (k + 1) * 512,
                    ;
                } else {
                    assert(data@[j] == before[j]);
                }
            }
            let ghost prev = intact;
            assert((prev && here) == (forall|q: int|
                0 <= q < k + 1 ==> #[trigger] stride_intact(b, uo, q))) by {
                if prev && here {
                    assert forall|q: int| 0 <= q < k + 1 implies #[trigger] stride_intact(
                        b,
                        uo,
                        q,
                    ) by {
                        if q < k {
                        }
                    }
                }
            }
        }
        intact = intact && here;
        k += 1;
    }
    proof {
        assert forall|j: int| 0 <= j < b.len() implies data@[j] == fixed_byte(b, uo, us, j) by {
            if j >= strides * 512 {
                assert(j / 512 >= strides) by (nonlinear_arith)
                    requires
                        j >= strides * 512,
                ;
            }
        }
        assert(data@ =~= with_fixups(b, uo, us));
    }
    (data, intact)
}

} // verus!
