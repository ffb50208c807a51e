//! Drive letter patterns: `*` for every drive that is present, or letters,
//! run together or separated by commas and blanks.

use vstd::prelude::*;
use vstd::string::*;
use crate::text::chars_of;
use crate::text::is_blank;
use crate::text::is_blank_char;

verus! {

/// Why a pattern names no drives.
#[derive(Clone, Copy, Debug, PartialEq, Eq, Structural)]
pub enum PatternError {
    /// The pattern holds a character that is neither a letter nor a
    /// separator.
    InvalidCharacter,
    /// The pattern is valid but no drive matches it.
    NoDrives,
}

/// A textual specifier of a set of drives.
#[derive(Debug)]
pub struct DriveLetterPattern(pub String);

/// Whether `c` is an ASCII letter.
pub open spec fn is_letter(c: char) -> bool {
    ('A' <= c && c <= 'Z') || ('a' <= c && c <= 'z')
}

/// The upper case form of an ASCII letter.
pub open spec fn upper(c: char) -> char {
    if 'a' <= c && c <= 'z' {
        ((c as u8) - 32) as char
    } else {
        c
    }
}

/// Whether `c` separates letters in a pattern.
pub open spec fn is_separator(c: char) -> bool {
    c == ',' || is_blank(c)
}

/// The drives that a pattern of letters names: each letter in upper case, in
/// the order of first appearance. `None` where the pattern holds anything
/// but letters and separators.
pub open spec fn named_letters(pattern: Seq<char>) -> Option<Seq<char>>
    decreases pattern.len(),
{
    if pattern.len() == 0 {
        Some(Seq::empty())
    } else {
        match named_letters(pattern.drop_last()) {
            None => None,
            Some(before) => {
                let c = pattern.last();
                if is_separator(c) {
                    Some(before)
                } else if is_letter(c) {
                    if before.contains(upper(c)) {
                        Some(before)
                    } else {
                        Some(before.push(upper(c)))
                    }
                } else {
                    None
                }
            },
        }
    }
}

/// Whether bit `i` of the presence bitmap is set: drive `'A' + i` exists.
pub open spec fn drive_present(bitmap: u32, i: u32) -> bool {
    (bitmap >> i) & 1 == 1
}

/// The letter of drive number `i`.
pub open spec fn drive_letter(i: u32) -> char {
    (('A' as u8) + (i as u8)) as char
}

/// The drives among the first `n` letters that the bitmap marks as present,
/// in alphabetical order.
pub open spec fn present_letters(bitmap: u32, n: nat) -> Seq<char>
    decreases n,
{
    if n == 0 {
        Seq::empty()
    } else {
        let before = present_letters(bitmap, (n - 1) as nat);
        if drive_present(bitmap, (n - 1) as u32) {
            before.push(drive_letter((n - 1) as u32))
        } else {
            before
        }
    }
}

/// The text `*`, which stands for every drive that is present.
pub open spec fn wildcard() -> Seq<char> {
    seq!['*']
}

/// What a pattern resolves to on a machine with the drives of `bitmap`.
pub open spec fn resolved(pattern: Seq<char>, bitmap: u32) -> Result<Seq<char>, PatternError> {
    if pattern == wildcard() {
        if present_letters(bitmap, 26).len() == 0 {
            Err(PatternError::NoDrives)
        } else {
            Ok(present_letters(bitmap, 26))
        }
    } else {
        match named_letters(pattern) {
            None => Err(PatternError::InvalidCharacter),
            Some(letters) => if letters.len() == 0 {
                Err(PatternError::NoDrives)
            } else {
                Ok(letters)
            },
        }
    }
}

/// Every drive that a pattern resolves to is an upper case letter, and none
/// comes twice.
pub proof fn named_letters_are_drives(pattern: Seq<char>)
    requires
        named_letters(pattern) is Some,
    ensures
        named_letters(pattern)->0.no_duplicates(),
        forall|i: int|
            0 <= i < named_letters(pattern)->0.len() ==> 'A' <= #[trigger] named_letters(
                pattern,
            )->0[i] && named_letters(pattern)->0[i] <= 'Z',
        named_letters(pattern)->0.len() <= pattern.len(),
    decreases pattern.len(),
{
    if pattern.len() > 0 {
        named_letters_are_drives(pattern.drop_last());
    }
}

/// The drives that a bitmap marks are upper case letters in ascending order.
pub proof fn present_letters_are_drives(bitmap: u32, n: nat)
    requires
        n <= 26,
    ensures
        present_letters(bitmap, n).len() <= n,
        forall|i: int|
            0 <= i < present_letters(bitmap, n).len() ==> 'A' <= #[trigger] present_letters(
                bitmap,
                n,
            )[i] && present_letters(bitmap, n)[i] < drive_letter(n as u32),
        forall|i: int, j: int|
            0 <= i < j < present_letters(bitmap, n).len() ==> present_letters(bitmap, n)[i]
                < present_letters(bitmap, n)[j],
    decreases n,
{
    if n > 0 {
        present_letters_are_drives(bitmap, (n - 1) as nat);
    }
}

/// A pattern resolves to upper case letters, none of them twice.
pub proof fn resolved_letters_are_drives(pattern: Seq<char>, bitmap: u32)
    requires
        resolved(pattern, bitmap) is Ok,
    ensures
        resolved(pattern, bitmap)->Ok_0.len() >= 1,
        resolved(pattern, bitmap)->Ok_0.no_duplicates(),
        forall|i: int|
            0 <= i < resolved(pattern, bitmap)->Ok_0.len() ==> 'A' <= #[trigger] resolved(
                pattern,
                bitmap,
            )->Ok_0[i] && resolved(pattern, bitmap)->Ok_0[i] <= 'Z',
{
    let letters = resolved(pattern, bitmap)->Ok_0;
    if pattern == wildcard() {
        present_letters_are_drives(bitmap, 26);
        assert(letters == present_letters(bitmap, 26));
        assert forall|i: int, j: int| 0 <= i < letters.len() && 0 <= j < letters.len() && i
            != j implies letters[i] != letters[j] by {
            if i < j {
                assert(present_letters(bitmap, 26)[i] < present_letters(bitmap, 26)[j]);
            } else {
                assert(present_letters(bitmap, 26)[j] < present_letters(bitmap, 26)[i]);
            }
        }
    } else {
        named_letters_are_drives(pattern);
        assert(letters == named_letters(pattern)->0);
    }
}

/// Every drive that is present, in alphabetical order.
pub fn enumerate_drives(bitmap: u32) -> (letters: Vec<char>)
    ensures
        letters@ == present_letters(bitmap, 26),
{
    let mut letters: Vec<char> = Vec::new();
    let mut i: u32 = 0;
    while i < 26
        invariant
            i <= 26,
            letters@ == present_letters(bitmap, i as nat),
        decreases 26 - i,
    {
        if (bitmap >> i) & 1 == 1 {
            letters.push((('A' as u8) + (i as u8)) as char);
        }
        i += 1;
    }
    letters
}

fn holds(letters: &Vec<char>, c: char) -> (b: bool)
    ensures
        b == letters@.contains(c),
{
    let mut i: usize = 0;
    while i < letters.len()
        invariant
            i <= letters.len(),
            forall|j: int| 0 <= j < i ==> letters@[j] != c,
        decreases letters.len() - i,
    {
        if letters[i] == c {
            return true;
        }
        i += 1;
    }
    false
}

impl DriveLetterPattern {
    /// The text of the pattern.
    pub open spec fn text(&self) -> Seq<char> {
        self.0@
    }

    /// The pattern `*`.
    pub fn all() -> (p: Self)
        ensures
            p.text() == wildcard(),
    {
        proof {
            reveal_strlit("*");
        }
        let p = DriveLetterPattern(String::from_str("*"));
        assert(p.text() =~= wildcard());
        p
    }

    /// The pattern with the given text.
    pub fn new(text: String) -> (p: Self)
        ensures
            p.text() == text@,
    {
        DriveLetterPattern(text)
    }

    /// The text of the pattern, as it stands on a command line.
    pub fn to_text(&self) -> (s: String)
        ensures
            s@ == self.text(),
    {
        self.0.clone()
    }

    /// Resolves the pattern to drive letters. `present` is the bitmap of the
    /// drives of this machine: bit `i` stands for drive `'A' + i`.
    pub fn resolve(&self, present: u32) -> (r: Result<Vec<char>, PatternError>)
        ensures
            match resolved(self.text(), present) {
                Ok(letters) => r is Ok && r->Ok_0@ == letters,
                Err(e) => r == Err::<Vec<char>, PatternError>(e),
            },
    {
        let chars = chars_of(self.0.as_str());
        if chars.len() == 1 && chars[0] == '*' {
            assert(chars@ =~= wildcard());
            let letters = enumerate_drives(present);
            if letters.len() == 0 {
                return Err(PatternError::NoDrives);
            }
            return Ok(letters);
        }
        assert(chars@ != wildcard()) by {
            if chars@ == wildcard() {
                assert(wildcard().len() == 1);
                assert(wildcard()[0] == '*');
            }
        }
        let mut letters: Vec<char> = Vec::new();
        let mut i: usize = 0;
        assert(chars@.subrange(0, 0) =~= Seq::<char>::empty());
        while i < chars.len()
            invariant
                i <= chars.len(),
                chars@ == self.text(),
                chars@ != wildcard(),
                named_letters(chars@.subrange(0, i as int)) == Some(letters@),
            ensures
                i == chars.len(),
                named_letters(chars@.subrange(0, i as int)) == Some(letters@),
            decreases chars.len() - i,
        {
            let c = chars[i];
            proof {
                let upto = chars@.subrange(0, i + 1);
                assert(upto.drop_last() =~= chars@.subrange(0, i as int));
                assert(upto.last() == c);
            }
            if c == ',' || is_blank_char(c) {
            } else if ('A' <= c && c <= 'Z') || ('a' <= c && c <= 'z') {
                let u = if 'a' <= c && c <= 'z' {
                    ((c as u8) - 32) as char
                } else {
                    c
                };
                if !holds(&letters, u) {
                    letters.push(u);
                }
            } else {
                proof {
                    assert(!is_separator(c) && !is_letter(c));
                    assert(named_letters(chars@.subrange(0, i + 1)) is None);
                    invalid_prefix_stays_invalid(chars@, i + 1);
                }
                return Err(PatternError::InvalidCharacter);
            }
            i += 1;
        }
        assert(chars@.subrange(0, chars.len() as int) =~= chars@);
        if letters.len() == 0 {
            Err(PatternError::NoDrives)
        } else {
            Ok(letters)
        }
    }
}

/// A pattern with an invalid beginning is invalid.
pub proof fn invalid_prefix_stays_invalid(pattern: Seq<char>, n: int)
    requires
        0 <= n <= pattern.len(),
        named_letters(pattern.subrange(0, n)) is None,
    ensures
        named_letters(pattern) is None,
    decreases pattern.len() - n,
{
    if n < pattern.len() {
        assert(pattern.subrange(0, n + 1).drop_last() =~= pattern.subrange(0, n));
        invalid_prefix_stays_invalid(pattern, n + 1);
    } else {
        assert(pattern.subrange(0, n) =~= pattern);
    }
}

} // verus!
