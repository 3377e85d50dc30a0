use manzana::text::dec_i64;
use manzana::text::dec_u64;
use manzana::text::parse_u64_str;
use manzana::text::split_lines;
use manzana::text::str_contains;
use manzana::text::str_eq;
use manzana::text::str_starts_with;
use manzana::text::strip_trailing;
use manzana::text::trim_str;

#[test]
fn test_dec_rendering() {
    assert_eq!(dec_u64(0), "0");
    assert_eq!(dec_u64(7), "7");
    assert_eq!(dec_u64(12345), "12345");
    assert_eq!(dec_u64(u64::MAX), "18446744073709551615");
    assert_eq!(dec_i64(-42), "-42");
    assert_eq!(dec_i64(42), "42");
    assert_eq!(dec_i64(i64::MIN), "-9223372036854775808");
}

#[test]
fn test_parse_u64() {
    assert_eq!(parse_u64_str("0"), Some(0));
    assert_eq!(parse_u64_str("16"), Some(16));
    assert_eq!(parse_u64_str("18446744073709551615"), Some(u64::MAX));
    assert_eq!(parse_u64_str("18446744073709551616"), None);
    assert_eq!(parse_u64_str(""), None);
    assert_eq!(parse_u64_str("1x"), None);
    assert_eq!(parse_u64_str(" 1"), None);
}

#[test]
fn test_trim_and_strip() {
    assert_eq!(trim_str("  hello \t\r\n"), "hello");
    assert_eq!(trim_str("   "), "");
    assert_eq!(trim_str("x"), "x");
    assert_eq!(strip_trailing("Name::", ':'), "Name");
    assert_eq!(strip_trailing("Name", ':'), "Name");
}

#[test]
fn test_search_helpers() {
    assert!(str_eq("abc", "abc"));
    assert!(!str_eq("abc", "abd"));
    assert!(str_contains("VRAM (Total): 16 GB", " GB"));
    assert!(!str_contains("VRAM", " GB"));
    assert!(str_starts_with("VRAM (Total)", "VRAM"));
    assert!(!str_starts_with("Total VRAM", "VRAM"));
}

#[test]
fn test_split_lines() {
    let lines = split_lines("a\nb\nc");
    assert_eq!(lines, vec!["a", "b", "c"]);
    let lines = split_lines("a\n");
    assert_eq!(lines, vec!["a", ""]);
    let lines = split_lines("");
    assert_eq!(lines, vec![""]);
}
