use rgb::text::{chars_of, decimal_string, hex_byte_string, same_text, text_contains};

#[test]
fn decimal_strings_match_integer_formatting() {
    assert_eq!(decimal_string(0), "0");
    assert_eq!(decimal_string(7), "7");
    assert_eq!(decimal_string(1440), "1440");
    assert_eq!(decimal_string(u64::MAX), u64::MAX.to_string());
}

#[test]
fn hex_byte_strings_use_two_upper_case_digits() {
    assert_eq!(hex_byte_string(0x00), "00");
    assert_eq!(hex_byte_string(0x0A), "0A");
    assert_eq!(hex_byte_string(0xFF), "FF");
    assert_eq!(hex_byte_string(0x5c), "5C");
}

#[test]
fn text_search_finds_contiguous_parts_only() {
    assert!(text_contains("01: Passed", "Passed"));
    assert!(text_contains("abc", ""));
    assert!(!text_contains("abc", "ac"));
    assert!(!text_contains("ab", "abc"));
    assert!(text_contains("héllo wörld", "ö"));
}

#[test]
fn text_comparison_and_characters() {
    assert!(same_text("post-bios", "post-bios"));
    assert!(!same_text("post-bios", "post-bio"));
    assert_eq!(chars_of("añb"), vec!['a', 'ñ', 'b']);
}
