//! Validation of one record slot: signature, fixups, attribute table, and the
//! file names the record carries.

use vstd::prelude::*;
use crate::mft::attributes::check_attribute_table;
use crate::mft::attributes::first_attribute_type;
use crate::mft::attributes::read_first_attribute_type;
use crate::mft::attributes::table_ok;
use crate::mft::decode::attribute_views;
use crate::mft::decode::decode_file_names;
use crate::mft::decode::mft_file_names;
use crate::mft::decode::read_entry_header;
use crate::mft::decode::AttributeInfo;
use crate::mft::decode::AttributeInfoView;
use crate::mft::fixup::apply_fixups;
use crate::mft::fixup::check_fixup_layout;
use crate::mft::fixup::fixup_layout_ok;
use crate::mft::fixup::fixups_verified;
use crate::mft::fixup::with_fixups;
use crate::mft::layout::header_fields;
use crate::mft::layout::header_readable;
use crate::mft::layout::le_u16;
use crate::mft::layout::le_u32;
use crate::mft::layout::RecordHeader;
use crate::mft::layout::HEADER_LEN;
use crate::mft::layout::SIGNATURE_FILE;

verus! {

/// Why a record is not healthy.
#[derive(Clone, Copy, Debug, PartialEq, Eq, Structural)]
pub enum RecordFault {
    /// The slot is too short to hold a record header.
    Truncated,
    /// The record does not start with `FILE`.
    BadSignature,
    /// The update sequence array does not fit the record.
    FixupLayout,
    /// A sector does not end in the check value: the record is torn.
    TornSector,
    /// The attribute table does not reach its end marker soundly.
    AttributeTable,
}

/// What one slot of the stream holds.
#[derive(Clone, Debug)]
pub struct ParsedRecord {
    /// Position of the slot in the stream.
    pub record_number: u64,
    /// The header, where one could be read.
    pub header: Option<RecordHeader>,
    /// `None` for a healthy record.
    pub fault: Option<RecordFault>,
    /// Type code of the first attribute of a healthy record.
    pub first_attribute: Option<u32>,
    /// The file name attributes of a healthy record, in table order.
    pub attributes: Vec<AttributeInfo>,
}

pub open spec fn usa_offset_of(slot: Seq<u8>) -> int {
    le_u16(slot, 4)
}

pub open spec fn usa_size_of(slot: Seq<u8>) -> int {
    le_u16(slot, 6)
}

pub open spec fn first_attribute_offset_of(slot: Seq<u8>) -> int {
    le_u16(slot, 20)
}

/// The record once its fixups are undone.
pub open spec fn restored(slot: Seq<u8>) -> Seq<u8> {
    with_fixups(slot, usa_offset_of(slot), usa_size_of(slot))
}

/// The first reason, in the order of the checks, for which `slot` is not a
/// healthy record.
pub open spec fn record_fault(slot: Seq<u8>) -> Option<RecordFault> {
    if slot.len() < HEADER_LEN {
        Some(RecordFault::Truncated)
    } else if le_u32(slot, 0) != SIGNATURE_FILE {
        Some(RecordFault::BadSignature)
    } else if !fixup_layout_ok(slot, usa_offset_of(slot), usa_size_of(slot)) {
        Some(RecordFault::FixupLayout)
    } else if !fixups_verified(slot, usa_offset_of(slot), usa_size_of(slot)) {
        Some(RecordFault::TornSector)
    } else if !table_ok(restored(slot), first_attribute_offset_of(slot)) {
        Some(RecordFault::AttributeTable)
    } else {
        None
    }
}

/// A record is healthy when it carries the signature `FILE`, its fixups are
/// verified and its attribute table is well formed.
pub open spec fn record_healthy(slot: Seq<u8>) -> bool {
    &&& slot.len() >= HEADER_LEN
    &&& le_u32(slot, 0) == SIGNATURE_FILE
    &&& fixup_layout_ok(slot, usa_offset_of(slot), usa_size_of(slot))
    &&& fixups_verified(slot, usa_offset_of(slot), usa_size_of(slot))
    &&& table_ok(restored(slot), first_attribute_offset_of(slot))
}

/// The decoded file name attributes of `slot`: those of the restored record
/// if it is healthy, none otherwise.
pub open spec fn record_attributes(slot: Seq<u8>, record_number: u64) -> Seq<AttributeInfoView> {
    if record_healthy(slot) {
        mft_file_names(restored(slot), record_number)
    } else {
        Seq::empty()
    }
}

impl ParsedRecord {
    pub open spec fn is_healthy(&self) -> bool {
        self.fault is None
    }

    /// Whether this value is what parsing `slot` at position `record_number`
    /// gives.
    pub open spec fn describes(&self, slot: Seq<u8>, record_number: u64) -> bool {
        &&& self.record_number == record_number
        &&& self.fault == record_fault(slot)
        &&& self.header == (if header_readable(slot) && slot.len() >= HEADER_LEN {
            Some(header_fields(slot, record_number))
        } else {
            None
        })
        &&& self.first_attribute == (if record_healthy(slot) {
            first_attribute_type(restored(slot), first_attribute_offset_of(slot))
        } else {
            None
        })
        &&& attribute_views(self.attributes@) == record_attributes(slot, record_number)
    }

    /// The health bit of the record.
    pub fn healthy(&self) -> (b: bool)
        ensures
            b == self.is_healthy(),
    {
        self.fault.is_none()
    }
}

/// A record has no fault exactly when it is healthy.
pub proof fn fault_free_is_healthy(slot: Seq<u8>)
    ensures
        record_fault(slot) is None <==> record_healthy(slot),
{
}

/// Undoing fixups leaves the first 510 bytes of a record as they are.
pub proof fn restored_keeps_header(slot: Seq<u8>, i: int)
    requires
        0 <= i < 510,
        i < slot.len(),
    ensures
        restored(slot).len() == slot.len(),
        restored(slot)[i] == slot[i],
{
}

fn unhealthy(record_number: u64, header: Option<RecordHeader>, fault: RecordFault) -> (r:
    ParsedRecord)
    ensures
        r.record_number == record_number,
        r.header == header,
        r.fault == Some(fault),
        r.first_attribute is None,
        r.attributes@.len() == 0,
{
    ParsedRecord {
        record_number,
        header,
        fault: Some(fault),
        first_attribute: None,
        attributes: Vec::new(),
    }
}

/// Parses the record in `slot`, which stands at position `record_number` of
/// the stream.
///
/// The health bit of the result is true exactly when the record carries the
/// signature `FILE`, its fixups are verified and its attribute table is well
/// formed; file names are decoded for healthy records only.
pub fn parse_record(slot: &[u8], record_number: u64) -> (r: ParsedRecord)
    ensures
        r.describes(slot@, record_number),
        r.is_healthy() <==> record_healthy(slot@),
{
    let ghost b = slot@;
    if slot.len() < HEADER_LEN {
        let r = unhealthy(record_number, None, RecordFault::Truncated);
        assert(attribute_views(r.attributes@) =~= Seq::empty());
        return r;
    }
    let header = match read_entry_header(slot, record_number) {
        Some(h) => h,
        None => {
            let r = unhealthy(record_number, None, RecordFault::BadSignature);
            assert(attribute_views(r.attributes@) =~= Seq::empty());
            return r;
        },
    };
    if !header.has_file_signature() {
        let r = unhealthy(record_number, Some(header), RecordFault::BadSignature);
        assert(attribute_views(r.attributes@) =~= Seq::empty());
        return r;
    }
    assert(header.usa_offset == usa_offset_of(b));
    assert(header.usa_size == usa_size_of(b));
    assert(header.first_attribute_offset == first_attribute_offset_of(b));
    if !check_fixup_layout(slot, header.usa_offset, header.usa_size) {
        let r = unhealthy(record_number, Some(header), RecordFault::FixupLayout);
        assert(attribute_views(r.attributes@) =~= Seq::empty());
        return r;
    }
    let (data, intact) = apply_fixups(slot, header.usa_offset, header.usa_size);
    if !intact {
        let r = unhealthy(record_number, Some(header), RecordFault::TornSector);
        assert(attribute_views(r.attributes@) =~= Seq::empty());
        return r;
    }
    assert(data@ == restored(b));
    if check_attribute_table(data.as_slice(), header.first_attribute_offset).is_none() {
        let r = unhealthy(record_number, Some(header), RecordFault::AttributeTable);
        assert(attribute_views(r.attributes@) =~= Seq::empty());
        return r;
    }
    proof {
        assert forall|i: int| 0 <= i < HEADER_LEN implies data@[i] == b[i] by {
            restored_keeps_header(b, i);
        }
        assert(le_u32(data@, 0) == le_u32(b, 0));
        assert(le_u16(data@, 20) == le_u16(b, 20));
        assert(header_readable(data@));
    }
    let first_attribute = read_first_attribute_type(
        data.as_slice(),
        header.first_attribute_offset,
    );
    let attributes = decode_file_names(data.as_slice(), record_number);
    ParsedRecord { record_number, header: Some(header), fault: None, first_attribute, attributes }
}

} // verus!
