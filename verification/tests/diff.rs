use storage_usage::mft_diff::count_differences;
use storage_usage::mft_diff::diff_mft_files;
use storage_usage::mft_diff::hex_byte;
use storage_usage::mft_diff::report_lines;
use storage_usage::mft_diff::ByteDifference;
use storage_usage::mft_diff::LengthDifference;
use storage_usage::mft_diff::Verdict;

fn pattern(len: usize) -> Vec<u8> {
    (0..len).map(|i| (i * 7 % 251) as u8).collect()
}

#[test]
fn identical_dumps_are_identical() {
    let a = pattern(10_000);
    let r = diff_mft_files(&a, &a, false, None);
    assert_eq!(r.verdict, Verdict::Identical);
    assert_eq!(r.differences_found, 0);
    assert_eq!(r.first_difference, None);
    assert_eq!(r.length_difference, None);
    assert_eq!(r.size1, 10_000);
    assert_eq!(r.size2, 10_000);
    assert_eq!(r.size_difference, 0);
    assert!(r.shown.is_empty());
    assert_eq!(r.remaining, None);
    let r = diff_mft_files(&a, &a, true, Some(3));
    assert_eq!(r.verdict, Verdict::Identical);
}

#[test]
fn empty_dumps_are_identical() {
    let r = diff_mft_files(&[], &[], true, None);
    assert_eq!(r.verdict, Verdict::Identical);
    assert_eq!(r.differences_found, 0);
}

#[test]
fn single_difference_at_byte_4096() {
    let a = pattern(8192);
    let mut b = a.clone();
    b[4096] ^= 0xff;
    let r = diff_mft_files(&a, &b, true, None);
    assert_eq!(r.first_difference, Some(4096));
    assert_eq!(r.differences_found, 1);
    assert_eq!(r.verdict, Verdict::VerySimilar);
    assert_eq!(
        r.shown,
        vec![ByteDifference { position: 4096, left: a[4096], right: b[4096] }]
    );
    assert_eq!(r.remaining, None);
    let quiet = diff_mft_files(&a, &b, false, None);
    assert_eq!(quiet.first_difference, Some(4096));
    assert_eq!(quiet.differences_found, 1);
    assert!(quiet.shown.is_empty());
}

#[test]
fn quiet_comparison_counts_the_first_differing_chunk() {
    let a = pattern(3 * 4096);
    let mut b = a.clone();
    b[4100] ^= 1;
    b[5000] ^= 1;
    b[8191] ^= 1;
    b[9000] ^= 1; // in the next chunk: not looked at
    let r = diff_mft_files(&a, &b, false, None);
    assert_eq!(r.first_difference, Some(4100));
    assert_eq!(r.differences_found, 3);
    assert_eq!(r.verdict, Verdict::DivergeLater);
}

#[test]
fn early_divergence_is_told_apart() {
    let a = pattern(4096);
    let mut b = a.clone();
    b[10] ^= 1;
    b[20] ^= 1;
    assert_eq!(diff_mft_files(&a, &b, false, None).verdict, Verdict::DivergeEarly);
    let mut c = a.clone();
    c[1024] ^= 1;
    c[1025] ^= 1;
    assert_eq!(diff_mft_files(&a, &c, false, None).verdict, Verdict::DivergeLater);
    let mut d = a.clone();
    d[1023] ^= 1;
    d[1025] ^= 1;
    assert_eq!(diff_mft_files(&a, &d, false, None).verdict, Verdict::DivergeEarly);
}

#[test]
fn verbose_comparison_lists_up_to_the_limit_and_counts_the_rest() {
    let a = pattern(3 * 4096);
    let mut b = a.clone();
    for p in [1, 2, 3, 4, 5000, 9000, 9001] {
        b[p] ^= 1;
    }
    let r = diff_mft_files(&a, &b, true, Some(3));
    assert_eq!(r.differences_found, 3);
    assert_eq!(r.shown.len(), 3);
    assert_eq!(r.shown[2].position, 3);
    // the fourth difference shares the chunk of the third and is given up;
    // the three in the later chunks are counted
    assert_eq!(r.remaining, Some(3));
    assert_eq!(r.first_difference, Some(1));
}

#[test]
fn verbose_comparison_below_the_limit_lists_everything() {
    let a = pattern(3 * 4096);
    let mut b = a.clone();
    for p in [1, 5000, 9000] {
        b[p] ^= 1;
    }
    let r = diff_mft_files(&a, &b, true, None);
    assert_eq!(r.differences_found, 3);
    assert_eq!(r.shown.iter().map(|d| d.position).collect::<Vec<_>>(), vec![1, 5000, 9000]);
    assert_eq!(r.remaining, None);
}

#[test]
fn limit_of_zero_lists_nothing_and_stops_at_the_first_difference() {
    let a = pattern(2 * 4096);
    let mut b = a.clone();
    b[7] ^= 1;
    b[5000] ^= 1;
    let r = diff_mft_files(&a, &b, true, Some(0));
    assert!(r.shown.is_empty());
    assert_eq!(r.differences_found, 1);
    assert_eq!(r.remaining, Some(1));
}

#[test]
fn longer_dump_is_told_apart_from_an_identical_one() {
    let a = pattern(4096 + 100);
    let b = pattern(4096 + 300);
    let r = diff_mft_files(&a, &b, false, None);
    assert_eq!(r.verdict, Verdict::LengthOnly);
    assert_eq!(r.differences_found, 0);
    assert_eq!(r.size_difference, 200);
    assert_eq!(r.length_difference, Some(LengthDifference { shorter_file: 1, ends_at: 4196 }));
    let r = diff_mft_files(&b, &a, false, None);
    assert_eq!(r.length_difference, Some(LengthDifference { shorter_file: 2, ends_at: 4196 }));
}

#[test]
fn bytes_behind_the_last_whole_chunk_are_compared_too() {
    let a = pattern(4096 + 100);
    let mut b = pattern(4096 + 300);
    b[4096 + 50] ^= 1;
    let r = diff_mft_files(&a, &b, true, None);
    assert_eq!(r.differences_found, 1);
    assert_eq!(r.first_difference, Some(4096 + 50));
    assert_eq!(r.verdict, Verdict::VerySimilar);
    assert_eq!(r.shown.len(), 1);
    assert_eq!(r.length_difference, Some(LengthDifference { shorter_file: 1, ends_at: 4196 }));
}

#[test]
fn short_dumps_of_different_length_are_compared() {
    let r = diff_mft_files(&[1, 2, 3], &[9, 9, 9, 9], false, None);
    assert_eq!(r.differences_found, 3);
    assert_eq!(r.first_difference, Some(0));
    assert_eq!(r.verdict, Verdict::DivergeEarly);
    let r = diff_mft_files(&[1, 2, 3], &[1, 2, 3, 4], false, None);
    assert_eq!(r.differences_found, 0);
    assert_eq!(r.verdict, Verdict::LengthOnly);
    let r = diff_mft_files(&[], &[1], true, None);
    assert_eq!(r.verdict, Verdict::LengthOnly);
    assert_eq!(r.remaining, None);
}

#[test]
fn surplus_of_the_longer_dump_counts_as_remaining() {
    let a = pattern(4096 + 100);
    let mut b = pattern(2 * 4096 + 300);
    b[5] ^= 1;
    b[4096 + 7] ^= 1;
    let r = diff_mft_files(&a, &b, true, Some(1));
    assert_eq!(r.differences_found, 1);
    // one more difference behind the first chunk, and the bytes that only the
    // longer dump has
    assert_eq!(r.remaining, Some(1 + 4096 + 200));
}

#[test]
fn differences_are_counted_in_a_range() {
    let a = vec![1u8, 2, 3, 4, 5];
    let b = vec![1u8, 9, 3, 9, 9];
    assert_eq!(count_differences(&a, &b, 0, 5), 3);
    assert_eq!(count_differences(&a, &b, 2, 4), 1);
    assert_eq!(count_differences(&a, &b, 3, 3), 0);
}

#[test]
fn bytes_are_written_in_two_hexadecimal_digits() {
    assert_eq!(hex_byte(0), "00");
    assert_eq!(hex_byte(9), "09");
    assert_eq!(hex_byte(10), "0A");
    assert_eq!(hex_byte(0x1F), "1F");
    assert_eq!(hex_byte(0xAB), "AB");
    assert_eq!(hex_byte(255), "FF");
}

#[test]
fn report_of_identical_files() {
    let a = vec![7u8; 100];
    let report = diff_mft_files(&a, &a, false, None);
    assert_eq!(
        report_lines(&report, "a.mft", "b.mft"),
        vec![
            "Comparing MFT files:",
            "  File 1: a.mft",
            "  File 2: b.mft",
            "",
            "File sizes:",
            "  File 1: 100 bytes",
            "  File 2: 100 bytes",
            "  Difference: 0 bytes",
            "",
            "Summary:",
            "  Files are identical!",
        ]
    );
}

#[test]
fn report_of_a_verbose_comparison() {
    let a = vec![0u8; 5000];
    let mut b = a.clone();
    b[2000] = 0x1F;
    b[2001] = 200;
    b[4500] = 1;
    let report = diff_mft_files(&a, &b, true, Some(2));
    let lines = report_lines(&report, "a", "b");
    assert_eq!(lines[9], "Difference at byte 2000: 0x00 vs 0x1F (decimal: 0 vs 31)");
    assert_eq!(lines[10], "Difference at byte 2001: 0x00 vs 0xC8 (decimal: 0 vs 200)");
    assert_eq!(lines[11], "... and 1 more differences (use --max-diffs to see more)");
    assert_eq!(lines[12], "Summary:");
    assert_eq!(lines[13], "  First difference at byte: 2000");
    assert_eq!(lines[14], "  As percentage of file: 40.00%");
    assert_eq!(lines[15], "  Total differences found: 2");
    assert_eq!(lines[16], "  Files are mostly similar initially, then diverge");
    assert_eq!(lines.len(), 17);
}

#[test]
fn report_of_files_of_different_length() {
    let a = vec![1u8; 10];
    let mut b = vec![1u8; 30];
    b[3] = 2;
    let report = diff_mft_files(&a, &b, false, None);
    let lines = report_lines(&report, "short", "long");
    assert_eq!(lines[5], "  File 1: 10 bytes");
    assert_eq!(lines[6], "  File 2: 30 bytes");
    assert_eq!(lines[7], "  Difference: 20 bytes");
    assert!(lines.contains(&"Files differ in length:".to_string()));
    assert!(lines.contains(&"  File 1 ends at position 10".to_string()));
    assert!(lines.contains(&"  File 2 continues beyond this point".to_string()));
    let report = diff_mft_files(&b, &a, false, None);
    let lines = report_lines(&report, "long", "short");
    assert!(lines.contains(&"  File 2 ends at position 10".to_string()));
    assert!(lines.contains(&"  File 1 continues beyond this point".to_string()));
}

#[test]
fn report_of_one_differing_byte_early() {
    let a = vec![0u8; 64];
    let mut b = a.clone();
    b[1] = 9;
    let lines = report_lines(&diff_mft_files(&a, &b, false, None), "a", "b");
    let n = lines.len();
    assert_eq!(lines[n - 4], "  First difference at byte: 1");
    assert_eq!(lines[n - 3], "  As percentage of file: 1.56%");
    assert_eq!(lines[n - 2], "  Total differences found: 1");
    assert_eq!(lines[n - 1], "  Files are very similar (only 1 byte differs)");
    b[2] = 9;
    let lines = report_lines(&diff_mft_files(&a, &b, false, None), "a", "b");
    assert_eq!(
        lines[lines.len() - 1],
        "  Files diverge very early (likely different headers/metadata)"
    );
}
