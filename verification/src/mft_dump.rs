//! Acquiring the MFT of a volume: what to check before a dump, where the
//! MFT lies, how much of it is read, and in which pieces. Opening, reading
//! and writing are left to the caller.

use vstd::prelude::*;
use vstd::string::*;

verus! {

/// The largest number of bytes that is read of an MFT through the volume,
/// where only the leading extent is sure to be contiguous.
pub const FALLBACK_LIMIT: u64 = 16 * 1024 * 1024;

/// The number of bytes that is read at a time.
pub const READ_CHUNK: u64 = 1024 * 1024;

/// What the file system says of an NTFS volume.
#[derive(Clone, Copy, Debug, PartialEq, Eq, Structural)]
pub struct NtfsVolumeInfo {
    pub bytes_per_sector: u32,
    pub bytes_per_cluster: u32,
    pub bytes_per_record: u32,
    pub mft_start_lcn: u64,
    pub mft_valid_data_length: u64,
    pub total_clusters: u64,
    pub free_clusters: u64,
}

/// Why a dump cannot be made.
#[derive(Clone, Copy, Debug, PartialEq, Eq, Structural)]
pub enum DumpError {
    /// The output file exists and is not to be overwritten.
    OutputExists,
    /// The MFT would begin beyond the range of 64-bit offsets.
    OffsetOverflow,
}

/// What is to be done first for a dump.
#[derive(Clone, Copy, Debug, PartialEq, Eq, Structural)]
pub enum DumpStep {
    /// The process is not elevated: relaunch it elevated and wait.
    Relaunch,
    /// Go on and dump the MFT of this drive.
    Proceed { drive_letter: char },
}

/// The upper case form of an ASCII letter; any other character as it is.
pub open spec fn upper_letter(c: char) -> char {
    if 'a' <= c && c <= 'z' {
        ((c as u8) - 32) as char
    } else {
        c
    }
}

/// The first step of a dump: an existing output that is not to be
/// overwritten is an error, whatever else holds; a process that is not
/// elevated relaunches itself; an elevated one goes on with the drive
/// letter in upper case.
pub open spec fn first_dump_step(
    output_exists: bool,
    overwrite_existing: bool,
    elevated: bool,
    drive_letter: char,
) -> Result<DumpStep, DumpError> {
    if output_exists && !overwrite_existing {
        Err(DumpError::OutputExists)
    } else if !elevated {
        Ok(DumpStep::Relaunch)
    } else {
        Ok(DumpStep::Proceed { drive_letter: upper_letter(drive_letter) })
    }
}

/// Decides the first step of dumping the MFT of `drive_letter` to a file.
pub fn dump_mft_to_file(
    output_exists: bool,
    overwrite_existing: bool,
    elevated: bool,
    drive_letter: char,
) -> (r: Result<DumpStep, DumpError>)
    ensures
        r == first_dump_step(output_exists, overwrite_existing, elevated, drive_letter),
{
    if output_exists && !overwrite_existing {
        return Err(DumpError::OutputExists);
    }
    if !elevated {
        return Ok(DumpStep::Relaunch);
    }
    let letter = if 'a' <= drive_letter && drive_letter <= 'z' {
        ((drive_letter as u8) - 32) as char
    } else {
        drive_letter
    };
    Ok(DumpStep::Proceed { drive_letter: letter })
}

/// How an existing output file is opened for writing: truncated where it
/// exists, created where it does not.
#[derive(Clone, Copy, Debug, PartialEq, Eq, Structural)]
pub enum WriteMode {
    Truncate,
    Create,
}

/// How the output file is opened for writing.
pub fn write_mft_to_file(output_exists: bool) -> (mode: WriteMode)
    ensures
        mode == (if output_exists {
            WriteMode::Truncate
        } else {
            WriteMode::Create
        }),
{
    if output_exists {
        WriteMode::Truncate
    } else {
        WriteMode::Create
    }
}

/// The path of a raw volume: `\\.\<L>:`.
pub open spec fn volume_path_text(drive_letter: char) -> Seq<char> {
    seq!['\\', '\\', '.', '\\', drive_letter, ':']
}

/// The path of the MFT of a volume as a file: `\\.\<L>:\$MFT`.
pub open spec fn mft_path_text(drive_letter: char) -> Seq<char> {
    volume_path_text(drive_letter) + seq!['\\', '$', 'M', 'F', 'T']
}

/// The path under which a raw volume is opened.
pub fn get_drive_handle(drive_letter: char) -> (path: String)
    ensures
        path@ == volume_path_text(drive_letter),
{
    let mut path = String::new();
    path.push('\\');
    path.push('\\');
    path.push('.');
    path.push('\\');
    path.push(drive_letter);
    path.push(':');
    assert(path@ =~= volume_path_text(drive_letter));
    path
}

/// The path under which the MFT of a volume is opened as a file.
pub fn read_mft_data(drive_letter: char) -> (path: String)
    ensures
        path@ == mft_path_text(drive_letter),
{
    let mut path = get_drive_handle(drive_letter);
    path.push('\\');
    path.push('$');
    path.push('M');
    path.push('F');
    path.push('T');
    assert(path@ =~= mft_path_text(drive_letter));
    path
}

/// Where the MFT is read from.
#[derive(Clone, Copy, Debug, PartialEq, Eq, Structural)]
pub enum ReadStage {
    /// The special file `$MFT`, read to its end: the whole MFT, whatever its
    /// fragmentation.
    SpecialFile,
    /// The volume itself, from where the MFT begins: a partial view, cut
    /// off at `FALLBACK_LIMIT`.
    VolumeFallback,
}

/// Chooses where the MFT is read from: the special file where it could be
/// opened, the volume otherwise.
pub fn read_stage(special_file_opened: bool) -> (stage: ReadStage)
    ensures
        stage == (if special_file_opened {
            ReadStage::SpecialFile
        } else {
            ReadStage::VolumeFallback
        }),
{
    if special_file_opened {
        ReadStage::SpecialFile
    } else {
        ReadStage::VolumeFallback
    }
}

/// What is read of the MFT through the volume.
#[derive(Clone, Copy, Debug, PartialEq, Eq, Structural)]
pub struct VolumeRead {
    /// Offset of the MFT on the volume, in bytes.
    pub offset: u64,
    /// Number of bytes to read.
    pub length: u64,
    /// Whether the MFT is longer than what is read.
    pub partial: bool,
}

/// The read of the MFT through the volume: from the start cluster times the
/// cluster size, the valid data length but no more than the fallback limit.
pub open spec fn volume_read(info: NtfsVolumeInfo) -> Result<VolumeRead, DumpError> {
    if info.mft_start_lcn * info.bytes_per_cluster > u64::MAX {
        Err(DumpError::OffsetOverflow)
    } else {
        Ok(
            VolumeRead {
                offset: (info.mft_start_lcn * info.bytes_per_cluster) as u64,
                length: if info.mft_valid_data_length < FALLBACK_LIMIT {
                    info.mft_valid_data_length
                } else {
                    FALLBACK_LIMIT
                },
                partial: info.mft_valid_data_length > FALLBACK_LIMIT,
            },
        )
    }
}

/// Plans the read of the MFT through the volume.
pub fn read_mft_from_volume(info: &NtfsVolumeInfo) -> (r: Result<VolumeRead, DumpError>)
    ensures
        r == volume_read(*info),
{
    let offset = match info.mft_start_lcn.checked_mul(info.bytes_per_cluster as u64) {
        Some(offset) => offset,
        None => {
            return Err(DumpError::OffsetOverflow);
        },
    };
    let length = if info.mft_valid_data_length < FALLBACK_LIMIT {
        info.mft_valid_data_length
    } else {
        FALLBACK_LIMIT
    };
    Ok(VolumeRead { offset, length, partial: info.mft_valid_data_length > FALLBACK_LIMIT })
}

/// The progress of reading a file of a known size to its end in chunks.
#[derive(Clone, Copy, Debug, PartialEq, Eq, Structural)]
pub struct ChunkedRead {
    pub file_size: u64,
    /// Bytes read so far.
    pub offset: u64,
    /// Whether the file ended before its size was reached.
    pub ended: bool,
}

/// The size of the next chunk: what is left, but no more than the chunk
/// size; nothing once the end is reached.
pub open spec fn chunk_after(r: ChunkedRead) -> u64 {
    if r.ended || r.offset >= r.file_size {
        0
    } else if r.file_size - r.offset < READ_CHUNK {
        (r.file_size - r.offset) as u64
    } else {
        READ_CHUNK
    }
}

/// The progress after a read of `bytes_read` bytes: a read of nothing ends
/// the file; anything else moves the offset on, but not beyond the size.
pub open spec fn after_read(r: ChunkedRead, bytes_read: u64) -> ChunkedRead {
    if bytes_read == 0 {
        ChunkedRead { ended: true, ..r }
    } else if bytes_read >= r.file_size - r.offset {
        ChunkedRead { offset: r.file_size, ..r }
    } else {
        ChunkedRead { offset: (r.offset + bytes_read) as u64, ..r }
    }
}

impl ChunkedRead {
    pub open spec fn wf(self) -> bool {
        self.offset <= self.file_size
    }

    /// The read of a file of `file_size` bytes, at its beginning.
    pub fn new(file_size: u64) -> (r: Self)
        ensures
            r == (ChunkedRead { file_size, offset: 0, ended: false }),
            r.wf(),
    {
        ChunkedRead { file_size, offset: 0, ended: false }
    }

    /// The size of the next chunk to read; zero when the read is over.
    pub fn next_chunk(&self) -> (n: u64)
        requires
            self.wf(),
        ensures
            n == chunk_after(*self),
            n <= READ_CHUNK,
            n <= self.file_size - self.offset,
    {
        if self.ended || self.offset >= self.file_size {
            0
        } else if self.file_size - self.offset < READ_CHUNK {
            self.file_size - self.offset
        } else {
            READ_CHUNK
        }
    }

    /// Takes note of a read of `bytes_read` bytes.
    pub fn advance(&mut self, bytes_read: u64)
        requires
            old(self).wf(),
        ensures
            *final(self) == after_read(*old(self), bytes_read),
            final(self).wf(),
    {
        if bytes_read == 0 {
            self.ended = true;
        } else if bytes_read >= self.file_size - self.offset {
            self.offset = self.file_size;
        } else {
            self.offset = self.offset + bytes_read;
        }
    }

    /// The number of bytes that the buffer holds at the end: what was read.
    pub fn total_read(&self) -> (n: u64)
        ensures
            n == self.offset,
    {
        self.offset
    }
}

/// Reading goes on until the size is reached or the file ends, and every
/// read that brings bytes brings the end nearer.
pub proof fn reading_comes_to_an_end(r: ChunkedRead, bytes_read: u64)
    requires
        r.wf(),
        chunk_after(r) > 0,
    ensures
        after_read(r, bytes_read).wf(),
        bytes_read > 0 ==> after_read(r, bytes_read).offset > r.offset,
        bytes_read == 0 ==> chunk_after(after_read(r, bytes_read)) == 0,
        after_read(r, bytes_read).file_size - after_read(r, bytes_read).offset + (if after_read(
            r,
            bytes_read,
        ).ended {
            0int
        } else {
            1int
        }) < r.file_size - r.offset + 1,
{
}

/// How much of the volume data the file system returned.
#[derive(Clone, Copy, Debug, PartialEq, Eq, Structural)]
pub enum VolumeDataExtent {
    /// The volume data alone.
    Basic,
    /// The volume data and the extended data.
    Extended,
    /// Both, and the identifier of the resource manager.
    Full,
}

/// Why no volume data is at hand.
#[derive(Clone, Copy, Debug, PartialEq, Eq, Structural)]
pub enum VolumeDataError {
    /// Fewer bytes came back than the volume data has: this is the number
    /// that came and the number that is needed.
    TooShort { returned: u32, needed: u32 },
}

/// What `returned` bytes hold of a buffer that is laid out as volume data of
/// `data` bytes, extended data of `extended` bytes, and an identifier.
pub open spec fn extent_of(returned: u32, data: u32, extended: u32, guid: u32) -> Result<
    VolumeDataExtent,
    VolumeDataError,
> {
    if returned < data {
        Err(VolumeDataError::TooShort { returned, needed: data })
    } else if returned < data + extended {
        Ok(VolumeDataExtent::Basic)
    } else if returned < data + extended + guid {
        Ok(VolumeDataExtent::Extended)
    } else {
        Ok(VolumeDataExtent::Full)
    }
}

/// Reads how much of the extended volume data came back.
pub fn get_ntfs_extended_volume_data(returned: u32, data: u32, extended: u32, guid: u32) -> (r:
    Result<VolumeDataExtent, VolumeDataError>)
    ensures
        r == extent_of(returned, data, extended, guid),
{
    if returned < data {
        Err(VolumeDataError::TooShort { returned, needed: data })
    } else if (returned as u64) < data as u64 + extended as u64 {
        Ok(VolumeDataExtent::Basic)
    } else if (returned as u64) < data as u64 + extended as u64 + guid as u64 {
        Ok(VolumeDataExtent::Extended)
    } else {
        Ok(VolumeDataExtent::Full)
    }
}

/// The size of a record as the volume states it: the number itself, or,
/// where it is negative, two to the power of its absolute value. Nothing
/// where that power leaves the range of 64 bits.
pub open spec fn record_size_from(stated: i32) -> Option<u64> {
    if stated >= 0 {
        Some(stated as u64)
    } else if -stated < 64 {
        Some(vstd::arithmetic::power2::pow2((-stated) as nat) as u64)
    } else {
        None
    }
}

/// Reads the size of a record as the volume states it.
pub fn mft_record_size(stated: i32) -> (size: Option<u64>)
    ensures
        size == record_size_from(stated),
{
    if stated >= 0 {
        Some(stated as u64)
    } else if stated > -64 {
        let shift: u64 = (-(stated as i64)) as u64;
        let mut size: u64 = 1;
        let mut i: u64 = 0;
        proof {
            vstd::arithmetic::power2::lemma2_to64();
        }
        while i < shift
            invariant
                i <= shift < 64,
                size == vstd::arithmetic::power2::pow2(i as nat),
            decreases shift - i,
        {
            proof {
                vstd::arithmetic::power2::lemma_pow2_unfold((i + 1) as nat);
                vstd::arithmetic::power2::lemma_pow2_strictly_increases((i + 1) as nat, 64);
                vstd::arithmetic::power2::lemma2_to64();
            }
            size = size * 2;
            i += 1;
        }
        Some(size)
    } else {
        None
    }
}

} // verus!
