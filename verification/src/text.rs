//! Small verified helpers on strings: appending characters, joining texts,
//! and printing and reading integers in decimal.

use vstd::prelude::*;
use vstd::string::*;

verus! {

/// `String::push` appends exactly one character.
pub assume_specification[ String::push ](s: &mut String, c: char)
    ensures
        final(s)@ == old(s)@.push(c),
;

/// The texts of a sequence of strings.
pub open spec fn texts(strings: Seq<String>) -> Seq<Seq<char>> {
    strings.map_values(|s: String| s@)
}

/// A list grows by one text when a string is pushed.
pub proof fn texts_push(strings: Seq<String>, s: String)
    ensures
        texts(strings.push(s)) == texts(strings).push(s@),
{
    assert(texts(strings.push(s)) =~= texts(strings).push(s@));
}

/// The texts of a concatenation.
pub proof fn texts_concat(a: Seq<String>, b: Seq<String>)
    ensures
        texts(a + b) == texts(a) + texts(b),
{
    assert(texts(a + b) =~= texts(a) + texts(b));
}

/// `String::pop` removes the last character and returns it, or returns
/// `None` for an empty string.
pub assume_specification[ String::pop ](s: &mut String) -> (c: Option<char>)
    ensures
        old(s)@.len() == 0 ==> c is None && final(s)@ == old(s)@,
        old(s)@.len() > 0 ==> c == Some(old(s)@.last()) && final(s)@ == old(s)@.drop_last(),
;

/// The decimal digit character of `d`, for `d < 10`.
pub open spec fn digit_char(d: int) -> char {
    if d == 0 {
        '0'
    } else if d == 1 {
        '1'
    } else if d == 2 {
        '2'
    } else if d == 3 {
        '3'
    } else if d == 4 {
        '4'
    } else if d == 5 {
        '5'
    } else if d == 6 {
        '6'
    } else if d == 7 {
        '7'
    } else if d == 8 {
        '8'
    } else {
        '9'
    }
}

/// The decimal representation of `n`, most significant digit first, without
/// leading zeros (`0` is `"0"`).
pub open spec fn decimal(n: nat) -> Seq<char>
    decreases n,
{
    if n < 10 {
        seq![digit_char(n as int)]
    } else {
        decimal(n / 10).push(digit_char((n % 10) as int))
    }
}

/// The number of decimal digits of `n` is at least one.
pub proof fn decimal_len_positive(n: nat)
    ensures
        decimal(n).len() >= 1,
    decreases n,
{
    if n >= 10 {
        decimal_len_positive(n / 10);
    }
}

fn digit_of(d: u64) -> (c: char)
    requires
        d < 10,
    ensures
        c == digit_char(d as int),
{
    if d == 0 {
        '0'
    } else if d == 1 {
        '1'
    } else if d == 2 {
        '2'
    } else if d == 3 {
        '3'
    } else if d == 4 {
        '4'
    } else if d == 5 {
        '5'
    } else if d == 6 {
        '6'
    } else if d == 7 {
        '7'
    } else if d == 8 {
        '8'
    } else {
        '9'
    }
}

/// Prints `n` in decimal.
pub fn decimal_string(n: u64) -> (s: String)
    ensures
        s@ == decimal(n as nat),
{
    let mut digits: Vec<char> = Vec::new();
    let mut rest: u64 = n;
    // digits holds the low digits, least significant first
    while rest >= 10
        invariant
            decimal(n as nat) == decimal(rest as nat) + digits@.reverse(),
        decreases rest,
    {
        let d: u64 = rest % 10;
        proof {
            let r = rest as nat;
            assert(decimal(r) == decimal(r / 10).push(digit_char((r % 10) as int)));
            assert(digits@.push(digit_char(d as int)).reverse() =~= seq![digit_char(d as int)]
                + digits@.reverse());
            assert(decimal(r / 10).push(digit_char(d as int)) + digits@.reverse() =~= decimal(
                r / 10,
            ) + (seq![digit_char(d as int)] + digits@.reverse()));
        }
        digits.push(digit_of(d));
        rest = rest / 10;
    }
    let mut s = String::new();
    s.push(digit_of(rest));
    let mut i: usize = digits.len();
    while i > 0
        invariant
            i <= digits.len(),
            rest < 10,
            decimal(n as nat) == decimal(rest as nat) + digits@.reverse(),
            s@ == decimal(rest as nat) + digits@.reverse().subrange(
                0,
                digits.len() - i,
            ),
        decreases i,
    {
        i = i - 1;
        proof {
            let rev = digits@.reverse();
            let k = digits.len() - i - 1;
            assert(rev[k] == digits@[i as int]);
            assert(rev.subrange(0, k + 1) =~= rev.subrange(0, k).push(rev[k]));
            assert((decimal(rest as nat) + rev.subrange(0, k)).push(rev[k]) =~= decimal(
                rest as nat,
            ) + rev.subrange(0, k + 1));
        }
        s.push(digits[i]);
    }
    proof {
        assert(digits@.reverse().subrange(0, digits.len() as int) =~= digits@.reverse());
    }
    s
}

/// The characters of `s`.
pub fn chars_of(s: &str) -> (v: Vec<char>)
    ensures
        v@ == s@,
{
    let n = s.unicode_len();
    let mut v: Vec<char> = Vec::with_capacity(n);
    let mut i: usize = 0;
    while i < n
        invariant
            i <= n,
            n == s@.len(),
            v@ == s@.subrange(0, i as int),
        decreases n - i,
    {
        v.push(s.get_char(i));
        assert(s@.subrange(0, i + 1) =~= s@.subrange(0, i as int).push(s@[i as int]));
        i += 1;
    }
    assert(s@.subrange(0, n as int) =~= s@);
    v
}

/// The string made of `chars`.
pub fn string_of(chars: &Vec<char>) -> (s: String)
    ensures
        s@ == chars@,
{
    let mut s = String::new();
    let mut i: usize = 0;
    while i < chars.len()
        invariant
            i <= chars.len(),
            s@ == chars@.subrange(0, i as int),
        decreases chars.len() - i,
    {
        s.push(chars[i]);
        assert(chars@.subrange(0, i + 1) =~= chars@.subrange(0, i as int).push(chars@[i as int]));
        i += 1;
    }
    assert(chars@.subrange(0, chars.len() as int) =~= chars@);
    s
}

/// Whether `c` is a blank: a character that Unicode counts as white space.
/// These are the tab, the line feed and the three characters behind it, the
/// space, the next line sign, the no-break space, the Ogham space mark, the
/// spaces of fixed width, the line and the paragraph separator, the narrow
/// no-break space, the medium mathematical space and the ideographic space.
pub open spec fn is_blank(c: char) -> bool {
    ('\u{9}' <= c && c <= '\u{d}') || c == ' ' || c == '\u{85}' || c == '\u{a0}' || c == '\u{1680}'
        || ('\u{2000}' <= c && c <= '\u{200a}') || c == '\u{2028}' || c == '\u{2029}' || c
        == '\u{202f}' || c == '\u{205f}' || c == '\u{3000}'
}

/// Tells whether `c` is a blank.
pub fn is_blank_char(c: char) -> (b: bool)
    ensures
        b == is_blank(c),
{
    ('\u{9}' <= c && c <= '\u{d}') || c == ' ' || c == '\u{85}' || c == '\u{a0}' || c == '\u{1680}'
        || ('\u{2000}' <= c && c <= '\u{200a}') || c == '\u{2028}' || c == '\u{2029}' || c
        == '\u{202f}' || c == '\u{205f}' || c == '\u{3000}'
}

/// Whether `s` holds nothing but blanks.
pub open spec fn all_blank(s: Seq<char>) -> bool {
    forall|i: int| 0 <= i < s.len() ==> is_blank(#[trigger] s[i])
}

/// Tests whether `s` holds nothing but blanks.
pub fn is_all_blank(s: &str) -> (b: bool)
    ensures
        b == all_blank(s@),
{
    let chars = chars_of(s);
    let mut i: usize = 0;
    while i < chars.len()
        invariant
            i <= chars.len(),
            chars@ == s@,
            forall|j: int| 0 <= j < i ==> is_blank(#[trigger] s@[j]),
        decreases chars.len() - i,
    {
        let c = chars[i];
        if !is_blank_char(c) {
            return false;
        }
        i += 1;
    }
    true
}

/// `s` with every `%s` replaced by the character `c`, read from the left.
pub open spec fn with_placeholder(s: Seq<char>, c: char) -> Seq<char>
    decreases s.len(),
{
    if s.len() == 0 {
        Seq::empty()
    } else if s.len() >= 2 && s[0] == '%' && s[1] == 's' {
        seq![c] + with_placeholder(s.skip(2), c)
    } else {
        seq![s[0]] + with_placeholder(s.skip(1), c)
    }
}

/// Whether `%s` occurs in `s`.
pub open spec fn has_placeholder(s: Seq<char>) -> bool {
    exists|i: int| 0 <= i && i + 1 < s.len() && #[trigger] s[i] == '%' && s[i + 1] == 's'
}

/// Tests whether `%s` occurs in `s`.
pub fn contains_placeholder(s: &str) -> (b: bool)
    ensures
        b == has_placeholder(s@),
{
    let chars = chars_of(s);
    let mut i: usize = 0;
    while i < chars.len() && i + 1 < chars.len()
        invariant
            chars@ == s@,
            forall|j: int| 0 <= j < i && j + 1 < s@.len() ==> !(#[trigger] s@[j] == '%' && s@[j + 1]
                == 's'),
        decreases chars.len() - i,
    {
        if chars[i] == '%' && chars[i + 1] == 's' {
            assert(s@[i as int] == '%' && s@[i + 1] == 's');
            return true;
        }
        i += 1;
    }
    false
}

/// Replaces every `%s` in `s` by the character `c`.
pub fn replace_placeholder(s: &str, c: char) -> (out: String)
    ensures
        out@ == with_placeholder(s@, c),
{
    let chars = chars_of(s);
    let mut out = String::new();
    let mut i: usize = 0;
    assert(s@.skip(0) =~= s@);
    while i < chars.len()
        invariant
            i <= chars.len(),
            chars@ == s@,
            with_placeholder(s@, c) == out@ + with_placeholder(s@.skip(i as int), c),
        decreases chars.len() - i,
    {
        let ghost rest = s@.skip(i as int);
        let ghost before = out@;
        if i + 1 < chars.len() && chars[i] == '%' && chars[i + 1] == 's' {
            out.push(c);
            proof {
                assert(rest[0] == '%' && rest[1] == 's');
                assert(rest.skip(2) =~= s@.skip(i + 2));
                assert(before + (seq![c] + with_placeholder(rest.skip(2), c)) =~= before.push(c)
                    + with_placeholder(rest.skip(2), c));
            }
            i += 2;
        } else {
            out.push(chars[i]);
            proof {
                assert(rest[0] == s@[i as int]);
                if rest.len() >= 2 {
                    assert(rest[1] == s@[i + 1]);
                }
                assert(rest.skip(1) =~= s@.skip(i + 1));
                assert(before + (seq![rest[0]] + with_placeholder(rest.skip(1), c))
                    =~= before.push(rest[0]) + with_placeholder(rest.skip(1), c));
            }
            i += 1;
        }
    }
    assert(s@.skip(chars.len() as int) =~= Seq::<char>::empty());
    assert(out@ + Seq::<char>::empty() =~= out@);
    out
}

/// The number of blanks that `s` begins with.
pub open spec fn leading_blanks(s: Seq<char>) -> nat
    decreases s.len(),
{
    if s.len() > 0 && is_blank(s[0]) {
        1 + leading_blanks(s.skip(1))
    } else {
        0
    }
}

/// The number of blanks that `s` ends with.
pub open spec fn trailing_blanks(s: Seq<char>) -> nat
    decreases s.len(),
{
    if s.len() > 0 && is_blank(s.last()) {
        1 + trailing_blanks(s.drop_last())
    } else {
        0
    }
}

/// `s` without the blanks at its beginning and at its end.
pub open spec fn trimmed(s: Seq<char>) -> Seq<char> {
    let rest = s.skip(leading_blanks(s) as int);
    rest.take(rest.len() - trailing_blanks(rest))
}

/// The blanks at either end of a text are within the text.
pub proof fn blanks_bounded(s: Seq<char>)
    ensures
        leading_blanks(s) <= s.len(),
        trailing_blanks(s) <= s.len(),
    decreases s.len(),
{
    if s.len() > 0 {
        blanks_bounded(s.skip(1));
        blanks_bounded(s.drop_last());
    }
}

/// Removes the blanks at the beginning and at the end of `s`.
pub fn trim(s: &str) -> (out: String)
    ensures
        out@ == trimmed(s@),
{
    let chars = chars_of(s);
    let n = chars.len();
    let mut start: usize = 0;
    assert(s@.skip(0) =~= s@);
    while start < n && is_blank_char(chars[start])
        invariant
            start <= n,
            n == chars@.len(),
            chars@ == s@,
            leading_blanks(s@) == start + leading_blanks(s@.skip(start as int)),
        decreases n - start,
    {
        assert(s@.skip(start as int)[0] == s@[start as int]);
        assert(s@.skip(start as int).skip(1) =~= s@.skip(start + 1));
        start += 1;
    }
    proof {
        if start < n {
            assert(s@.skip(start as int)[0] == s@[start as int]);
        }
        assert(leading_blanks(s@) == start);
    }
    let ghost rest = s@.skip(start as int);
    let mut end: usize = n;
    assert(rest.take(rest.len() as int) =~= rest);
    while end > start && is_blank_char(chars[end - 1])
        invariant
            start <= end <= n,
            n == chars@.len(),
            chars@ == s@,
            rest == s@.skip(start as int),
            trailing_blanks(rest) == (n - end) + trailing_blanks(rest.take(end - start)),
        decreases end,
    {
        let ghost upto = rest.take(end - start);
        assert(upto.last() == s@[end - 1]);
        assert(upto.drop_last() =~= rest.take(end - 1 - start));
        end -= 1;
    }
    proof {
        let upto = rest.take(end - start);
        if end > start {
            assert(upto.last() == s@[end - 1]);
        }
        assert(trailing_blanks(upto) == 0);
        assert(trailing_blanks(rest) == n - end);
    }
    let mut out = String::new();
    let mut i: usize = start;
    while i < end
        invariant
            start <= i <= end <= n,
            n == chars@.len(),
            chars@ == s@,
            out@ == s@.subrange(start as int, i as int),
        decreases end - i,
    {
        out.push(chars[i]);
        assert(s@.subrange(start as int, i + 1) =~= s@.subrange(start as int, i as int).push(
            s@[i as int],
        ));
        i += 1;
    }
    assert(s@.subrange(start as int, end as int) =~= rest.take(end - start));
    out
}

/// The pieces written one after the other.
pub open spec fn flat(pieces: Seq<Seq<char>>) -> Seq<char>
    decreases pieces.len(),
{
    if pieces.len() == 0 {
        Seq::empty()
    } else {
        flat(pieces.drop_last()) + pieces.last()
    }
}

/// Writes the pieces one after the other.
pub fn concat(pieces: &Vec<String>) -> (s: String)
    ensures
        s@ == flat(texts(pieces@)),
{
    let mut s = String::new();
    let mut i: usize = 0;
    assert(texts(pieces@).take(0) =~= Seq::<Seq<char>>::empty());
    while i < pieces.len()
        invariant
            i <= pieces.len(),
            s@ == flat(texts(pieces@).take(i as int)),
        decreases pieces.len() - i,
    {
        proof {
            assert(texts(pieces@).take(i + 1).drop_last() =~= texts(pieces@).take(i as int));
            assert(texts(pieces@).take(i + 1).last() == pieces@[i as int]@);
        }
        s.append(pieces[i].as_str());
        i += 1;
    }
    assert(texts(pieces@).take(pieces.len() as int) =~= texts(pieces@));
    s
}

/// The value of a decimal digit, if `c` is one.
pub open spec fn digit_value(c: char) -> Option<nat> {
    if c == '0' {
        Some(0)
    } else if c == '1' {
        Some(1)
    } else if c == '2' {
        Some(2)
    } else if c == '3' {
        Some(3)
    } else if c == '4' {
        Some(4)
    } else if c == '5' {
        Some(5)
    } else if c == '6' {
        Some(6)
    } else if c == '7' {
        Some(7)
    } else if c == '8' {
        Some(8)
    } else if c == '9' {
        Some(9)
    } else {
        None
    }
}

/// The number that a text of decimal digits writes; nothing for an empty
/// text and for a text that holds anything but digits.
pub open spec fn number_of(text: Seq<char>) -> Option<nat>
    decreases text.len(),
{
    if text.len() == 0 {
        None
    } else if text.len() == 1 {
        digit_value(text[0])
    } else {
        match (number_of(text.drop_last()), digit_value(text.last())) {
            (Some(head), Some(d)) => Some(head * 10 + d),
            _ => None,
        }
    }
}

/// Reading what was printed gives the number back.
pub proof fn number_of_decimal(n: nat)
    ensures
        number_of(decimal(n)) == Some(n),
    decreases n,
{
    if n < 10 {
        assert(decimal(n).len() == 1);
        assert(decimal(n)[0] == digit_char(n as int));
    } else {
        number_of_decimal(n / 10);
        decimal_len_positive(n / 10);
        let text = decimal(n);
        assert(text.drop_last() =~= decimal(n / 10));
        assert(text.last() == digit_char((n % 10) as int));
        assert(digit_value(digit_char((n % 10) as int)) == Some(n % 10));
    }
}

/// Reads a number of decimal digits. Nothing comes of a text that is not a
/// number, nor of a number beyond the range of the machine.
pub fn parse_number(text: &str) -> (r: Option<usize>)
    ensures
        match number_of(text@) {
            Some(n) => if n <= usize::MAX {
                r == Some(n as usize)
            } else {
                r is None
            },
            None => r is None,
        },
{
    let chars = chars_of(text);
    if chars.len() == 0 {
        return None;
    }
    let mut value: usize = 0;
    let mut i: usize = 0;
    while i < chars.len()
        invariant
            i <= chars.len(),
            chars@ == text@,
            chars@.len() > 0,
            i > 0 ==> number_of(text@.take(i as int)) == Some(value as nat),
            i == 0 ==> value == 0,
        decreases chars.len() - i,
    {
        let c = chars[i];
        let d: usize = if c == '0' {
            0
        } else if c == '1' {
            1
        } else if c == '2' {
            2
        } else if c == '3' {
            3
        } else if c == '4' {
            4
        } else if c == '5' {
            5
        } else if c == '6' {
            6
        } else if c == '7' {
            7
        } else if c == '8' {
            8
        } else if c == '9' {
            9
        } else {
            proof {
                assert(digit_value(c) is None);
                not_a_number(text@, i as int);
            }
            return None;
        };
        proof {
            let upto = text@.take(i + 1);
            assert(upto.drop_last() =~= text@.take(i as int));
            assert(upto.last() == c);
            assert(digit_value(c) == Some(d as nat));
        }
        let next = match value.checked_mul(10) {
            Some(v) => v.checked_add(d),
            None => None,
        };
        match next {
            Some(v) => {
                value = v;
            },
            None => {
                proof {
                    let upto = text@.take(i + 1);
                    assert(number_of(upto) == Some((value * 10 + d) as nat));
                    assert(text@.take(chars.len() as int) =~= text@);
                    number_grows(text@, i + 1);
                }
                return None;
            },
        }
        i += 1;
    }
    assert(text@.take(chars.len() as int) =~= text@);
    Some(value)
}

/// A text with something that is not a digit in it is not a number.
proof fn not_a_number(text: Seq<char>, i: int)
    requires
        0 <= i < text.len(),
        digit_value(text[i]) is None,
    ensures
        number_of(text) is None,
    decreases text.len(),
{
    if text.len() > 1 {
        if i < text.len() - 1 {
            not_a_number(text.drop_last(), i);
        }
    }
}

/// A number is at least as large as the number that any beginning of its
/// text writes.
proof fn number_grows(text: Seq<char>, n: int)
    requires
        1 <= n <= text.len(),
        number_of(text.take(n)) is Some,
    ensures
        number_of(text) is Some ==> number_of(text)->0 >= number_of(text.take(n))->0,
    decreases text.len() - n,
{
    if n < text.len() {
        if number_of(text) is Some {
            let head = text.drop_last();
            assert(head.take(n) =~= text.take(n));
            if text.len() > 1 {
                number_grows(head, n);
            }
        }
    } else {
        assert(text.take(n) =~= text);
    }
}

/// Tests whether two texts are the same.
pub fn same_text(a: &str, b: &str) -> (r: bool)
    ensures
        r == (a@ == b@),
{
    let x = chars_of(a);
    let y = chars_of(b);
    if x.len() != y.len() {
        return false;
    }
    let mut i: usize = 0;
    while i < x.len()
        invariant
            i <= x.len(),
            x@.len() == y@.len(),
            x@ == a@,
            y@ == b@,
            forall|j: int| 0 <= j < i ==> x@[j] == y@[j],
        decreases x.len() - i,
    {
        if x[i] != y[i] {
            return false;
        }
        i += 1;
    }
    assert(a@ =~= b@);
    true
}

/// A text between two others.
pub fn framed(before: &str, middle: &str, after: &str) -> (s: String)
    ensures
        s@ == before@ + middle@ + after@,
{
    let mut s = String::from_str(before);
    s.append(middle);
    s.append(after);
    s
}

/// A number between two texts.
pub fn numbered(before: &str, n: usize, after: &str) -> (s: String)
    ensures
        s@ == before@ + decimal(n as nat) + after@,
{
    let digits = decimal_string(n as u64);
    framed(before, digits.as_str(), after)
}

/// One text behind another.
pub fn joined(before: &str, after: &str) -> (s: String)
    ensures
        s@ == before@ + after@,
{
    let mut s = String::from_str(before);
    s.append(after);
    s
}

} // verus!
