//! The MFT byte stream as a sequence of equal-sized record slots.

use vstd::prelude::*;
use vstd::slice::slice_subrange;
use crate::mft::decode::read_entry_header;
use crate::mft::layout::header_readable;
use crate::mft::layout::le_u32;
use crate::mft::layout::DEFAULT_RECORD_SIZE;
use crate::mft::layout::SIGNATURE_FILE;
use crate::mft::record::parse_record;
use crate::mft::record::ParsedRecord;

verus! {

/// The record size of a stream: the total size that the header of its first
/// record states, or 1024 where that header cannot be read, does not carry
/// the signature `FILE`, or states no size.
pub open spec fn record_size_of(b: Seq<u8>) -> int {
    if header_readable(b) && le_u32(b, 0) == SIGNATURE_FILE && le_u32(b, 28) > 0 {
        le_u32(b, 28)
    } else {
        DEFAULT_RECORD_SIZE as int
    }
}

/// The number of whole records in a stream of `len` bytes.
pub open spec fn record_count(len: int, size: int) -> int {
    len / size
}

/// The bytes of slot `i`.
pub open spec fn slot_of(b: Seq<u8>, size: int, i: int) -> Seq<u8> {
    b.subrange(i * size, (i + 1) * size)
}

/// The whole records lie inside the stream, and what follows them is shorter
/// than one record: a partial record at the end is not counted.
pub proof fn record_count_bounds(len: int, size: int)
    requires
        0 <= len,
        0 < size,
    ensures
        0 <= record_count(len, size),
        record_count(len, size) * size <= len,
        len - record_count(len, size) * size < size,
        len % size == 0 ==> record_count(len, size) * size == len,
{
    assert(len == size * (len / size) + len % size) by (nonlinear_arith)
        requires
            0 < size,
    ;
    assert(0 <= len % size < size) by (nonlinear_arith)
        requires
            0 < size,
    ;
    assert(len / size >= 0) by (nonlinear_arith)
        requires
            0 <= len,
            0 < size,
    ;
    assert(size * (len / size) == (len / size) * size) by (nonlinear_arith);
}

/// Every slot below the record count lies inside the stream.
pub proof fn slot_in_bounds(len: int, size: int, i: int)
    requires
        0 <= len,
        0 < size,
        0 <= i < record_count(len, size),
    ensures
        0 <= i * size,
        (i + 1) * size <= len,
        (i + 1) * size == i * size + size,
{
    record_count_bounds(len, size);
    assert((i + 1) * size <= record_count(len, size) * size) by (nonlinear_arith)
        requires
            i + 1 <= record_count(len, size),
            0 < size,
    ;
    assert(0 <= i * size) by (nonlinear_arith)
        requires
            0 <= i,
            0 < size,
    ;
    assert((i + 1) * size == i * size + size) by (nonlinear_arith);
}

/// Finds the record size of a stream from its first record header.
pub fn detect_record_size(mft_bytes: &[u8]) -> (size: u32)
    ensures
        size == record_size_of(mft_bytes@),
        size > 0,
{
    match read_entry_header(mft_bytes, 0) {
        Some(header) => {
            if header.has_file_signature() && header.total_size > 0 {
                header.total_size
            } else {
                DEFAULT_RECORD_SIZE
            }
        },
        None => DEFAULT_RECORD_SIZE,
    }
}

/// A forward-only pass over the records of one MFT byte stream.
pub struct MftEntryIterator<'a> {
    mft_bytes: &'a [u8],
    entry_size: u32,
    current_entry: usize,
    total_entries: usize,
}

impl<'a> MftEntryIterator<'a> {
    /// The stream that is iterated.
    pub closed spec fn bytes(&self) -> Seq<u8> {
        self.mft_bytes@
    }

    /// The size of one record.
    pub closed spec fn record_size(&self) -> int {
        self.entry_size as int
    }

    /// The number of records handed out so far.
    pub closed spec fn position(&self) -> int {
        self.current_entry as int
    }

    /// The number of records of the stream.
    pub closed spec fn count(&self) -> int {
        self.total_entries as int
    }

    /// The invariant of the iterator.
    pub closed spec fn wf(&self) -> bool {
        &&& self.entry_size > 0
        &&& self.total_entries == record_count(self.mft_bytes@.len() as int, self.entry_size as int)
        &&& self.current_entry <= self.total_entries
    }

    /// Starts a pass over `mft_bytes`.
    pub fn new(mft_bytes: &'a [u8]) -> (it: Self)
        ensures
            it.wf(),
            it.bytes() == mft_bytes@,
            it.record_size() == record_size_of(mft_bytes@),
            it.count() == record_count(mft_bytes@.len() as int, record_size_of(mft_bytes@)),
            it.position() == 0,
    {
        let entry_size = detect_record_size(mft_bytes);
        let total_entries = mft_bytes.len() / (entry_size as usize);
        proof {
            record_count_bounds(mft_bytes@.len() as int, entry_size as int);
        }
        MftEntryIterator { mft_bytes, entry_size, current_entry: 0, total_entries }
    }

    /// The size of one record, in bytes.
    pub fn entry_size(&self) -> (size: u32)
        requires
            self.wf(),
        ensures
            size == self.record_size(),
            size > 0,
    {
        self.entry_size
    }

    /// The number of records of the stream.
    pub fn total_entries(&self) -> (n: usize)
        ensures
            n == self.count(),
    {
        self.total_entries
    }

    /// Whether the stream holds no byte at all.
    pub fn is_empty_stream(&self) -> (b: bool)
        ensures
            b == (self.bytes().len() == 0),
    {
        self.mft_bytes.len() == 0
    }

    /// The number of records not handed out yet.
    pub fn remaining(&self) -> (n: usize)
        requires
            self.wf(),
        ensures
            n == self.count() - self.position(),
    {
        self.total_entries - self.current_entry
    }

    /// Hands out the next record, or `None` once every whole record of the
    /// stream was handed out.
    pub fn next(&mut self) -> (r: Option<ParsedRecord>)
        requires
            old(self).wf(),
        ensures
            final(self).wf(),
            final(self).bytes() == old(self).bytes(),
            final(self).record_size() == old(self).record_size(),
            final(self).count() == old(self).count(),
            old(self).position() < old(self).count() ==> r is Some && r->0.describes(
                slot_of(old(self).bytes(), old(self).record_size(), old(self).position()),
                old(self).position() as u64,
            ) && final(self).position() == old(self).position() + 1,
            old(self).position() >= old(self).count() ==> r is None && final(self).position()
                == old(self).position(),
    {
        if self.current_entry >= self.total_entries {
            return None;
        }
        let size: usize = self.entry_size as usize;
        proof {
            slot_in_bounds(self.mft_bytes@.len() as int, size as int, self.current_entry as int);
            assert(self.current_entry * size + size <= self.mft_bytes@.len());
            assert(self.mft_bytes@.len() == self.mft_bytes.len());
        }
        let start: usize = self.current_entry * size;
        let end: usize = start + size;
        let slot = slice_subrange(self.mft_bytes, start, end);
        let record = parse_record(slot, self.current_entry as u64);
        self.current_entry = self.current_entry + 1;
        Some(record)
    }
}

} // verus!
