use storage_usage::text::decimal_string;
use storage_usage::text::is_all_blank;
use storage_usage::text::is_blank_char;
use storage_usage::text::trim;
use storage_usage::text_order::sort_texts;
use storage_usage::text_order::text_at_most;
use storage_usage::text::parse_number;
use storage_usage::text::same_text;

#[test]
fn decimal_of_zero_is_one_digit() {
    assert_eq!(decimal_string(0), "0");
}

#[test]
fn decimal_prints_every_digit() {
    assert_eq!(decimal_string(1234567890), "1234567890");
    assert_eq!(decimal_string(u64::MAX), "18446744073709551615");
}

#[test]
fn numbers_are_read_from_their_digits() {
    assert_eq!(parse_number("0"), Some(0));
    assert_eq!(parse_number("007"), Some(7));
    assert_eq!(parse_number("1234567890"), Some(1234567890));
    assert_eq!(parse_number(&usize::MAX.to_string()), Some(usize::MAX));
}

#[test]
fn what_is_no_number_is_not_read() {
    assert_eq!(parse_number(""), None);
    assert_eq!(parse_number("12a"), None);
    assert_eq!(parse_number("-1"), None);
    assert_eq!(parse_number("+1"), None);
    assert_eq!(parse_number(" 1"), None);
    assert_eq!(parse_number("18446744073709551616"), None);
    assert_eq!(parse_number("99999999999999999999999999"), None);
}

#[test]
fn printed_numbers_are_read_back() {
    for n in [0u64, 9, 10, 99, 100, 4096, u64::MAX] {
        assert_eq!(parse_number(&decimal_string(n)), Some(n as usize));
    }
}

#[test]
fn texts_are_compared_character_by_character() {
    assert!(same_text("", ""));
    assert!(same_text("mft", "mft"));
    assert!(!same_text("mft", "mfT"));
    assert!(!same_text("mft", "mf"));
    assert!(!same_text("mf", "mft"));
}

#[test]
fn texts_are_ordered_character_by_character() {
    assert!(text_at_most("", ""));
    assert!(text_at_most("", "a"));
    assert!(!text_at_most("a", ""));
    assert!(text_at_most("a", "a"));
    assert!(text_at_most("a", "ab"));
    assert!(!text_at_most("ab", "a"));
    assert!(text_at_most("ab", "b"));
    assert!(!text_at_most("b", "ab"));
    assert!(text_at_most("C.mft", "c.mft"));
    assert!(text_at_most("z", "\u{e9}"));
}

#[test]
fn paths_are_ordered_component_by_component() {
    // the directory `a` comes before the names `a-b`, `a b` and `a.b`
    assert!(text_at_most("a/b", "a-b"));
    assert!(!text_at_most("a-b", "a/b"));
    assert!(text_at_most("a\\z", "a b"));
    assert!(text_at_most("a/z", "a.b"));
    assert!(text_at_most("a/c", "ab/c"));
    assert!(text_at_most("a", "a/b"));
    // both separators count the same
    assert!(text_at_most("a/b", "a\\b"));
    assert!(text_at_most("a\\b", "a/b"));
    let mut paths: Vec<std::path::PathBuf> =
        ["d/a-b", "d/a/z", "d/a", "d/a b/x", "d/ab", "c", "d/a.b"].iter().map(Into::into).collect();
    let sorted = sort_texts(paths.iter().map(|p| p.to_string_lossy().into_owned()).collect());
    paths.sort();
    let expected: Vec<String> = paths.iter().map(|p| p.to_string_lossy().into_owned()).collect();
    assert_eq!(sorted, expected);
}

#[test]
fn texts_are_sorted_and_equal_ones_are_kept() {
    let items: Vec<String> =
        ["pear", "apple", "fig", "apple", "", "figs", "Zoo"].iter().map(|s| s.to_string()).collect();
    assert_eq!(sort_texts(items), vec!["", "Zoo", "apple", "apple", "fig", "figs", "pear"]);
    assert_eq!(sort_texts(Vec::new()), Vec::<String>::new());
    assert_eq!(sort_texts(vec!["one".to_string()]), vec!["one"]);
    let mut many: Vec<String> = (0..200).map(|i| format!("{}", (i * 37) % 101)).collect();
    let sorted = sort_texts(many.clone());
    many.sort();
    assert_eq!(sorted, many);
}

#[test]
fn blanks_are_the_white_space_of_unicode() {
    for c in [' ', '\t', '\n', '\r', '\u{b}', '\u{c}', '\u{85}', '\u{a0}', '\u{1680}', '\u{2000}',
        '\u{2005}', '\u{200a}', '\u{2028}', '\u{2029}', '\u{202f}', '\u{205f}', '\u{3000}']
    {
        assert!(is_blank_char(c), "{:?}", c);
    }
    for c in ['a', '0', ',', '\u{8}', '\u{e}', '\u{200b}', '\u{feff}', '\u{180e}', '\u{2060}'] {
        assert!(!is_blank_char(c), "{:?}", c);
    }
    // the same characters that the standard library counts as white space
    for code in 0..0x3100u32 {
        if let Some(c) = char::from_u32(code) {
            assert_eq!(is_blank_char(c), c.is_whitespace(), "{:?}", c);
        }
    }
    assert!(is_all_blank(" \u{a0}\u{3000}\t"));
    assert!(!is_all_blank(" \u{a0}x"));
    assert_eq!(trim("\u{2003} x y \u{a0}\n"), "x y");
}
