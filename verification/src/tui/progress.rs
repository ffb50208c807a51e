//! Running totals of one MFT file.

use vstd::prelude::*;
use crate::text::texts;

verus! {

/// Progress of the analysis of one MFT file.
#[derive(Debug)]
pub struct MftFileProgress {
    /// Where the dump lies.
    pub path: String,
    /// Size of the dump in bytes, once known.
    pub total_size: Option<u64>,
    /// Size of one record in bytes, once known.
    pub entry_size: Option<u64>,
    /// Bytes worked off so far.
    pub processed_size: u64,
    /// When the file was completed, in milliseconds since the analysis began.
    pub processing_end: Option<u64>,
    /// The paths discovered in this file.
    pub files_within: Vec<String>,
    /// One health bit per record worked off.
    pub entry_health_statuses: Vec<bool>,
    /// The error log.
    pub errors: Vec<String>,
}

/// The mathematical value of a [`MftFileProgress`].
pub struct ProgressView {
    pub path: Seq<char>,
    pub total_size: Option<u64>,
    pub entry_size: Option<u64>,
    pub processed_size: u64,
    pub processing_end: Option<u64>,
    pub files_within: Seq<Seq<char>>,
    pub entry_health_statuses: Seq<bool>,
    pub errors: Seq<Seq<char>>,
}

impl View for MftFileProgress {
    type V = ProgressView;

    open spec fn view(&self) -> ProgressView {
        ProgressView {
            path: self.path@,
            total_size: self.total_size,
            entry_size: self.entry_size,
            processed_size: self.processed_size,
            processing_end: self.processing_end,
            files_within: texts(self.files_within@),
            entry_health_statuses: self.entry_health_statuses@,
            errors: texts(self.errors@),
        }
    }
}

/// The values of a list of progress records.
pub open spec fn progress_views(files: Seq<MftFileProgress>) -> Seq<ProgressView> {
    files.map_values(|p: MftFileProgress| p@)
}

impl MftFileProgress {
    /// The progress of a file on which no work was done yet.
    pub fn new(path: String) -> (p: Self)
        ensures
            p@ == (ProgressView {
                path: path@,
                total_size: None,
                entry_size: None,
                processed_size: 0,
                processing_end: None,
                files_within: Seq::empty(),
                entry_health_statuses: Seq::empty(),
                errors: Seq::empty(),
            }),
    {
        let p = MftFileProgress {
            path,
            total_size: None,
            entry_size: None,
            processed_size: 0,
            processing_end: None,
            files_within: Vec::new(),
            entry_health_statuses: Vec::new(),
            errors: Vec::new(),
        };
        assert(texts(p.files_within@) =~= Seq::empty());
        assert(texts(p.errors@) =~= Seq::empty());
        p
    }

    /// Whether the file was worked off completely.
    pub fn is_complete(&self) -> (b: bool)
        ensures
            b == self@.processing_end is Some,
    {
        self.processing_end.is_some()
    }

    /// The number of records worked off, where the record size is known and
    /// not zero.
    pub fn processed_entries(&self) -> (n: Option<u64>)
        ensures
            n == processed_entries_of(self@),
    {
        match self.entry_size {
            Some(size) => if size > 0 {
                Some(self.processed_size / size)
            } else {
                Some(0)
            },
            None => None,
        }
    }

    /// The number of records of the file, where both sizes are known and the
    /// record size is not zero.
    pub fn total_entries(&self) -> (n: Option<u64>)
        ensures
            n == total_entries_of(self@),
    {
        match (self.entry_size, self.total_size) {
            (Some(size), Some(total)) => if size > 0 {
                Some(total / size)
            } else {
                None
            },
            _ => None,
        }
    }

    /// The number of healthy records among those worked off.
    pub fn healthy_entries(&self) -> (n: usize)
        ensures
            n == count_healthy(self@.entry_health_statuses),
    {
        count_true(&self.entry_health_statuses)
    }
}

/// Records worked off: processed bytes over the record size, zero where the
/// record size is zero, unknown where it is not known.
pub open spec fn processed_entries_of(p: ProgressView) -> Option<u64> {
    match p.entry_size {
        Some(size) => if size > 0 {
            Some((p.processed_size / size) as u64)
        } else {
            Some(0u64)
        },
        None => None,
    }
}

/// Records in the file: total bytes over the record size, where both are
/// known and the record size is not zero.
pub open spec fn total_entries_of(p: ProgressView) -> Option<u64> {
    match (p.entry_size, p.total_size) {
        (Some(size), Some(total)) => if size > 0 {
            Some((total / size) as u64)
        } else {
            None
        },
        _ => None,
    }
}

/// The number of `true` bits.
pub open spec fn count_healthy(bits: Seq<bool>) -> nat
    decreases bits.len(),
{
    if bits.len() == 0 {
        0
    } else {
        count_healthy(bits.drop_last()) + if bits.last() {
            1nat
        } else {
            0nat
        }
    }
}

/// There are never more healthy records than records.
pub proof fn count_healthy_bounded(bits: Seq<bool>)
    ensures
        count_healthy(bits) <= bits.len(),
    decreases bits.len(),
{
    if bits.len() > 0 {
        count_healthy_bounded(bits.drop_last());
    }
}

/// Counts the `true` bits of `bits`.
pub fn count_true(bits: &Vec<bool>) -> (n: usize)
    ensures
        n == count_healthy(bits@),
{
    let mut n: usize = 0;
    let mut i: usize = 0;
    assert(bits@.subrange(0, 0) =~= Seq::<bool>::empty());
    while i < bits.len()
        invariant
            i <= bits.len(),
            n == count_healthy(bits@.subrange(0, i as int)),
            n <= i,
        decreases bits.len() - i,
    {
        proof {
            assert(bits@.subrange(0, i + 1).drop_last() =~= bits@.subrange(0, i as int));
        }
        if bits[i] {
            n += 1;
        }
        i += 1;
    }
    assert(bits@.subrange(0, bits.len() as int) =~= bits@);
    n
}

} // verus!
