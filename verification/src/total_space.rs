//! The free space of drives at a glance: the colour of a gauge and the label
//! of a volume.

use vstd::prelude::*;
use vstd::string::*;
use crate::text::all_blank;
use crate::text::is_all_blank;

verus! {

/// Free space below this many bytes is low: 100 GiB.
pub const LOW_SPACE: u64 = 100 * 1024 * 1024 * 1024;

/// The colour of a gauge.
#[derive(Clone, Copy, Debug, PartialEq, Eq, Structural)]
pub enum GaugeColor {
    /// Space is low.
    Red,
    Blue,
}

/// Whether space is low: less than 100 GiB are free, or less than a tenth
/// of the drive. A drive without size counts as one byte.
pub open spec fn low_space(free: u64, total: u64) -> bool {
    free < LOW_SPACE || free * 10 < (if total < 1 {
        1
    } else {
        total as int
    })
}

/// The colour of the gauge of a drive with `free` of `total` bytes free.
pub fn gauge_color(free: u64, total: u64) -> (c: GaugeColor)
    ensures
        c == (if low_space(free, total) {
            GaugeColor::Red
        } else {
            GaugeColor::Blue
        }),
{
    let size: u128 = if total < 1 {
        1
    } else {
        total as u128
    };
    if free < LOW_SPACE || (free as u128) * 10 < size {
        GaugeColor::Red
    } else {
        GaugeColor::Blue
    }
}

/// The label of a volume: its name, or `Local Disk` where the name is
/// blank.
pub open spec fn label_text(name: Seq<char>) -> Seq<char> {
    if all_blank(name) {
        "Local Disk"@
    } else {
        name
    }
}

/// The label of a volume with the given name.
pub fn volume_label(name: String) -> (label: String)
    ensures
        label@ == label_text(name@),
{
    if is_all_blank(name.as_str()) {
        String::from_str("Local Disk")
    } else {
        name
    }
}

/// The letters of the drives that are shown: `C` to `I`.
pub fn get_all_drives() -> (letters: Vec<char>)
    ensures
        letters@ == seq!['C', 'D', 'E', 'F', 'G', 'H', 'I'],
{
    let mut letters: Vec<char> = Vec::new();
    letters.push('C');
    letters.push('D');
    letters.push('E');
    letters.push('F');
    letters.push('G');
    letters.push('H');
    letters.push('I');
    assert(letters@ =~= seq!['C', 'D', 'E', 'F', 'G', 'H', 'I']);
    letters
}

} // verus!
