//! The attribute table of a record: a chain of `{type, length}` headers that
//! ends with the marker `0xFFFFFFFF`.

use vstd::prelude::*;
use crate::mft::layout::le_u32;
use crate::mft::layout::read_u32;
use crate::mft::layout::ATTRIBUTE_END;
use crate::mft::layout::ATTRIBUTE_FILE_NAME;
use crate::mft::layout::ATTRIBUTE_MIN_LEN;
use crate::mft::layout::ATTRIBUTE_STANDARD_INFO;

verus! {

/// Attribute types whose content is always stored inside the record.
pub open spec fn always_resident(type_code: int) -> bool {
    type_code == ATTRIBUTE_STANDARD_INFO || type_code == ATTRIBUTE_FILE_NAME
}

/// Whether the attribute at `off` is sound by itself: it declares a length
/// that covers its common header and stays inside the record, and it is
/// resident where its type demands that.
pub open spec fn attribute_sound(b: Seq<u8>, off: int) -> bool {
    &&& off + ATTRIBUTE_MIN_LEN <= b.len()
    &&& le_u32(b, off + 4) >= ATTRIBUTE_MIN_LEN
    &&& off + le_u32(b, off + 4) <= b.len()
    &&& (always_resident(le_u32(b, off)) ==> b[off + 8] == 0)
}

/// Whether the table that starts at `off` is well formed: a chain of sound
/// attributes that reaches the end marker inside the record.
pub open spec fn table_ok(b: Seq<u8>, off: int) -> bool
    decreases b.len() - off,
{
    if off < 0 || off + 4 > b.len() {
        false
    } else if le_u32(b, off) == ATTRIBUTE_END {
        true
    } else if attribute_sound(b, off) {
        table_ok(b, off + le_u32(b, off + 4))
    } else {
        false
    }
}

/// The number of attributes of a well-formed table (zero for any other).
pub open spec fn table_len(b: Seq<u8>, off: int) -> nat
    decreases b.len() - off,
{
    if off < 0 || off + 4 > b.len() {
        0
    } else if le_u32(b, off) == ATTRIBUTE_END {
        0
    } else if attribute_sound(b, off) {
        1 + table_len(b, off + le_u32(b, off + 4))
    } else {
        0
    }
}

/// The type code of the first attribute, if the table has one.
pub open spec fn first_attribute_type(b: Seq<u8>, off: int) -> Option<u32> {
    if 0 <= off && off + 4 <= b.len() && le_u32(b, off) != ATTRIBUTE_END {
        Some(le_u32(b, off) as u32)
    } else {
        None
    }
}

/// Walks the attribute table of `data` from `first`.
///
/// Returns the number of attributes if the table is well formed, `None` if it
/// is not.
pub fn check_attribute_table(data: &[u8], first: u16) -> (r: Option<usize>)
    ensures
        r is Some <==> table_ok(data@, first as int),
        r is Some ==> r->0 == table_len(data@, first as int),
{
    let ghost b = data@;
    let len: usize = data.len();
    let mut off: usize = first as usize;
    let mut count: usize = 0;
    loop
        invariant
            b == data@,
            len == data.len(),
            off <= len || table_ok(b, off as int) == false,
            count <= off,
            table_ok(b, first as int) == table_ok(b, off as int),
            table_len(b, first as int) == count + table_len(b, off as int) || !table_ok(
                b,
                off as int,
            ),
        decreases len - off,
    {
        if off > len || len - off < 4 {
            return None;
        }
        let type_code = read_u32(data, off);
        if type_code == ATTRIBUTE_END {
            return Some(count);
        }
        if len - off < 16 {
            return None;
        }
        let declared = read_u32(data, off + 4);
        if declared < ATTRIBUTE_MIN_LEN || declared as usize > len - off {
            return None;
        }
        if (type_code == ATTRIBUTE_STANDARD_INFO || type_code == ATTRIBUTE_FILE_NAME) && data[off
            + 8] != 0 {
            return None;
        }
        assert(attribute_sound(b, off as int));
        off = off + declared as usize;
        count = count + 1;
    }
}

/// Reads the type code of the first attribute of the table at `first`.
pub fn read_first_attribute_type(data: &[u8], first: u16) -> (r: Option<u32>)
    ensures
        r == first_attribute_type(data@, first as int),
{
    let off: usize = first as usize;
    if off > data.len() || data.len() - off < 4 {
        return None;
    }
    let type_code = read_u32(data, off);
    if type_code == ATTRIBUTE_END {
        None
    } else {
        Some(type_code)
    }
}

} // verus!
