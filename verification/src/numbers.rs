//! Numbers as the front ends write them: shares in per cent with one or two
//! digits behind the point, and seconds as milliseconds.

use vstd::prelude::*;
use vstd::string::*;
use crate::text::concat;
use crate::text::decimal;
use crate::text::decimal_string;
use crate::text::flat;
use crate::text::texts;

verus! {

/// `part` of `whole`, times `scale`, rounded down; nothing of nothing, and
/// no more than 64 bits hold.
pub open spec fn scaled(part: u64, whole: u64, scale: u16) -> u64 {
    if whole == 0 {
        0
    } else if part * scale / (whole as int) > u64::MAX {
        u64::MAX
    } else {
        (part * scale / (whole as int)) as u64
    }
}

/// Works out `part` of `whole`, times `scale`.
pub fn scale_share(part: u64, whole: u64, scale: u16) -> (r: u64)
    ensures
        r == scaled(part, whole, scale),
{
    if whole == 0 {
        return 0;
    }
    assert(part * scale <= u64::MAX * u16::MAX) by (nonlinear_arith)
        requires
            part <= u64::MAX,
            scale <= u16::MAX,
    ;
    let product: u128 = (part as u128) * (scale as u128);
    let share: u128 = product / (whole as u128);
    if share > u64::MAX as u128 {
        u64::MAX
    } else {
        share as u64
    }
}

/// A share in percent with one digit behind the point, rounded down.
pub open spec fn tenths_text(part: u64, whole: u64) -> Seq<char> {
    let t = scaled(part, whole, 1000);
    flat(seq![decimal((t / 10) as nat), "."@, decimal((t % 10) as nat), "%"@])
}

/// Two digits, the first of them a zero where the number has one.
pub open spec fn two_digits(n: nat) -> Seq<char> {
    if n < 10 {
        flat(seq!["0"@, decimal(n)])
    } else {
        decimal(n)
    }
}

/// A share in percent with two digits behind the point, rounded down.
pub open spec fn hundredths_text(part: u64, whole: u64) -> Seq<char> {
    let h = scaled(part, whole, 10000);
    flat(seq![decimal((h / 100) as nat), "."@, two_digits((h % 100) as nat), "%"@])
}

/// Writes a share in percent with one digit behind the point.
pub fn tenths(part: u64, whole: u64) -> (s: String)
    ensures
        s@ == tenths_text(part, whole),
{
    let t = scale_share(part, whole, 1000);
    let mut pieces: Vec<String> = Vec::new();
    pieces.push(decimal_string(t / 10));
    pieces.push(String::from_str("."));
    pieces.push(decimal_string(t % 10));
    pieces.push(String::from_str("%"));
    assert(texts(pieces@) =~= seq![
        decimal((t / 10) as nat),
        "."@,
        decimal((t % 10) as nat),
        "%"@,
    ]);
    concat(&pieces)
}

/// Writes a share in percent with two digits behind the point.
pub fn hundredths(part: u64, whole: u64) -> (s: String)
    ensures
        s@ == hundredths_text(part, whole),
{
    let h = scale_share(part, whole, 10000);
    let rest = h % 100;
    let mut digits: Vec<String> = Vec::new();
    if rest < 10 {
        digits.push(String::from_str("0"));
        digits.push(decimal_string(rest));
        assert(texts(digits@) =~= seq!["0"@, decimal(rest as nat)]);
    } else {
        digits.push(decimal_string(rest));
        assert(texts(digits@) =~= seq![decimal(rest as nat)]);
        assert(flat(seq![decimal(rest as nat)]) =~= decimal(rest as nat)) by {
            assert(seq![decimal(rest as nat)].drop_last() =~= Seq::<Seq<char>>::empty());
            assert(flat(Seq::<Seq<char>>::empty()) =~= Seq::<char>::empty());
        }
    }
    let behind = concat(&digits);
    let mut pieces: Vec<String> = Vec::new();
    pieces.push(decimal_string(h / 100));
    pieces.push(String::from_str("."));
    pieces.push(behind);
    pieces.push(String::from_str("%"));
    assert(texts(pieces@) =~= seq![
        decimal((h / 100) as nat),
        "."@,
        two_digits(rest as nat),
        "%"@,
    ]);
    concat(&pieces)
}

/// Whether more than `percent` in a hundred of `whole` are `part`. Of
/// nothing, nothing is more than any share.
pub open spec fn above(part: u64, whole: u64, percent: nat) -> bool {
    whole > 0 && part * 100 > percent * whole
}

/// Tells whether more than `percent` in a hundred of `whole` are `part`.
pub fn is_above(part: u64, whole: u64, percent: u8) -> (b: bool)
    ensures
        b == above(part, whole, percent as nat),
{
    assert(part * 100 <= u64::MAX * 100) by (nonlinear_arith)
        requires
            part <= u64::MAX,
    ;
    assert(percent * whole <= u8::MAX * u64::MAX) by (nonlinear_arith)
        requires
            percent <= u8::MAX,
            whole <= u64::MAX,
    ;
    whole > 0 && (part as u128) * 100 > (percent as u128) * (whole as u128)
}

/// `seconds` in milliseconds, cut off at the largest 64-bit value.
pub open spec fn in_millis(seconds: u64) -> u64 {
    if seconds * 1000 > u64::MAX {
        u64::MAX
    } else {
        (seconds * 1000) as u64
    }
}

/// Seconds in milliseconds.
pub fn to_millis(seconds: u64) -> (millis: u64)
    ensures
        millis == in_millis(seconds),
{
    if seconds > u64::MAX / 1000 {
        u64::MAX
    } else {
        seconds * 1000
    }
}

} // verus!
