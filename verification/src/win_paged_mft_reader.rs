//! A window over the MFT of a volume that is read page by page. Reading the
//! volume is left to the caller, who hands in each page.

use vstd::prelude::*;

verus! {

/// Where to seek to.
#[derive(Clone, Copy, Debug, PartialEq, Eq, Structural)]
pub enum SeekTarget {
    /// An offset from the beginning.
    Start(u64),
    /// An offset from the end, which is not known.
    End(i64),
    /// An offset from the current position.
    Current(i64),
}

/// Why a seek failed.
#[derive(Clone, Copy, Debug, PartialEq, Eq, Structural)]
pub enum SeekError {
    /// Seeking from the end is not supported.
    Unsupported,
    /// The position would be beyond the largest offset.
    Overflow,
    /// The position would be before the beginning.
    Underflow,
}

/// A reader that holds one page of the MFT at a time.
#[derive(Debug)]
pub struct PagedMftReader {
    buffer: Vec<u8>,
    buffer_start: u64,
    current_pos: u64,
    buffer_capacity: usize,
}

/// The state of a reader as a mathematical value.
pub struct ReaderModel {
    /// The page that is held.
    pub page: Seq<u8>,
    /// Where the page begins.
    pub page_start: u64,
    /// The read position.
    pub position: u64,
    /// The size of a page.
    pub capacity: usize,
}

impl ReaderModel {
    /// Whether the read position lies outside the page that is held.
    pub open spec fn outside(self) -> bool {
        self.position < self.page_start || self.position >= self.page_start + self.page.len()
    }

    /// The bytes of the page from the read position on.
    pub open spec fn ahead(self) -> Seq<u8> {
        self.page.skip(self.position - self.page_start)
    }
}

/// The position after a seek.
pub open spec fn sought(position: u64, target: SeekTarget) -> Result<u64, SeekError> {
    match target {
        SeekTarget::Start(offset) => Ok(offset),
        SeekTarget::End(_) => Err(SeekError::Unsupported),
        SeekTarget::Current(offset) => if offset >= 0 {
            if position + offset > u64::MAX {
                Err(SeekError::Overflow)
            } else {
                Ok((position + offset) as u64)
            }
        } else if position + offset < 0 {
            Err(SeekError::Underflow)
        } else {
            Ok((position + offset) as u64)
        },
    }
}

impl View for PagedMftReader {
    type V = ReaderModel;

    closed spec fn view(&self) -> ReaderModel {
        ReaderModel {
            page: self.buffer@,
            page_start: self.buffer_start,
            position: self.current_pos,
            capacity: self.buffer_capacity,
        }
    }
}

impl PagedMftReader {
    /// The page fits the range of offsets.
    pub closed spec fn wf(&self) -> bool {
        self.buffer_start + self.buffer@.len() <= u64::MAX
    }

    /// A reader without a page, at `starting_pos`.
    pub fn new(buffer_capacity: usize, starting_pos: u64) -> (r: Self)
        ensures
            r.wf(),
            r@ == (ReaderModel {
                page: Seq::empty(),
                page_start: 0,
                position: starting_pos,
                capacity: buffer_capacity,
            }),
    {
        PagedMftReader {
            buffer: Vec::new(),
            buffer_start: 0,
            current_pos: starting_pos,
            buffer_capacity,
        }
    }

    /// The read position.
    pub fn position(&self) -> (p: u64)
        ensures
            p == self@.position,
    {
        self.current_pos
    }

    /// The size of a page.
    pub fn capacity(&self) -> (n: usize)
        ensures
            n == self@.capacity,
    {
        self.buffer_capacity
    }

    /// Whether a page has to be read before the next read: the read
    /// position lies outside the page that is held.
    pub fn needs_fill(&self) -> (b: bool)
        requires
            self.wf(),
        ensures
            b == self@.outside(),
    {
        self.current_pos < self.buffer_start || self.current_pos - self.buffer_start
            >= self.buffer.len() as u64
    }

    /// Takes in the page that was read at the read position. A page that
    /// would reach beyond the largest offset is cut off there.
    pub fn fill_buffer(&mut self, page: Vec<u8>)
        requires
            old(self).wf(),
        ensures
            final(self).wf(),
            final(self)@.position == old(self)@.position,
            final(self)@.capacity == old(self)@.capacity,
            final(self)@.page_start == old(self)@.position,
            final(self)@.page == (if old(self)@.position + page@.len() <= u64::MAX {
                page@
            } else {
                page@.take(u64::MAX - old(self)@.position)
            }),
    {
        let mut page = page;
        let room: u64 = u64::MAX - self.current_pos;
        if page.len() as u64 > room {
            page.truncate(room as usize);
        }
        self.buffer = page;
        self.buffer_start = self.current_pos;
    }

    /// Reads up to `max` bytes at the read position from the page that is
    /// held, and moves the position on. Outside the page nothing is read:
    /// that is the end of the data, or a page is to be filled first.
    pub fn read(&mut self, max: usize) -> (bytes: Vec<u8>)
        requires
            old(self).wf(),
        ensures
            final(self).wf(),
            final(self)@.page == old(self)@.page,
            final(self)@.page_start == old(self)@.page_start,
            final(self)@.capacity == old(self)@.capacity,
            old(self)@.outside() ==> bytes@.len() == 0 && final(self)@.position == old(self)@.position,
            !old(self)@.outside() ==> bytes@ == old(self)@.ahead().take(
                if max < old(self)@.ahead().len() {
                    max as int
                } else {
                    old(self)@.ahead().len() as int
                },
            ) && final(self)@.position == old(self)@.position + bytes@.len(),
    {
        let mut bytes: Vec<u8> = Vec::new();
        if self.needs_fill() {
            return bytes;
        }
        let buffered: usize = self.buffer.len();
        assert(self.current_pos - self.buffer_start < buffered);
        let offset: usize = (self.current_pos - self.buffer_start) as usize;
        let available: usize = self.buffer.len() - offset;
        let to_read: usize = if max < available {
            max
        } else {
            available
        };
        let ghost ahead = self@.ahead();
        let mut i: usize = 0;
        assert(ahead.take(0) =~= Seq::<u8>::empty());
        while i < to_read
            invariant
                i <= to_read <= available,
                offset + available == self.buffer@.len(),
                self.buffer@.len() == buffered,
                ahead == self.buffer@.skip(offset as int),
                bytes@ == ahead.take(i as int),
            decreases to_read - i,
        {
            bytes.push(self.buffer[offset + i]);
            assert(ahead.take(i + 1) =~= ahead.take(i as int).push(ahead[i as int]));
            i += 1;
        }
        self.current_pos = self.current_pos + to_read as u64;
        bytes
    }

    /// Moves the read position.
    pub fn seek(&mut self, target: SeekTarget) -> (r: Result<u64, SeekError>)
        requires
            old(self).wf(),
        ensures
            final(self).wf(),
            r == sought(old(self)@.position, target),
            final(self)@.page == old(self)@.page,
            final(self)@.page_start == old(self)@.page_start,
            final(self)@.capacity == old(self)@.capacity,
            final(self)@.position == (match r {
                Ok(p) => p,
                Err(_) => old(self)@.position,
            }),
    {
        let new_pos = match target {
            SeekTarget::Start(offset) => offset,
            SeekTarget::End(_) => {
                return Err(SeekError::Unsupported);
            },
            SeekTarget::Current(offset) => {
                if offset >= 0 {
                    match self.current_pos.checked_add(offset as u64) {
                        Some(p) => p,
                        None => {
                            return Err(SeekError::Overflow);
                        },
                    }
                } else {
                    let back: u64 = (-(offset as i128)) as u64;
                    if back > self.current_pos {
                        return Err(SeekError::Underflow);
                    }
                    self.current_pos - back
                }
            },
        };
        self.current_pos = new_pos;
        Ok(new_pos)
    }
}

} // verus!
