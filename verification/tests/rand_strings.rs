use regex_speed::enums::RegexSpeedError;
use regex_speed::rand_str_builder::{build_rand_str, build_rand_strs, insert_substring};

#[test]
fn test_build_rand_str() {
    let rand_str = build_rand_str(10).unwrap();
    assert_eq!(rand_str.len(), 10);
}

#[test]
fn test_build_rand_str_zero_length_is_invalid() {
    assert_eq!(build_rand_str(0), Err(RegexSpeedError::InvalidLength));
}

#[test]
fn test_build_rand_str_is_alphanumeric() {
    let rand_str = build_rand_str(200).unwrap();
    assert_eq!(rand_str.chars().count(), 200);
    assert!(rand_str.chars().all(|c| c.is_ascii_alphanumeric()));
}

#[test]
fn test_build_rand_strs() {
    let rand_strs = build_rand_strs(10, 3).unwrap();
    assert_eq!(rand_strs.len(), 3);
    assert_eq!(rand_strs[0].len(), 10);
    assert_eq!(rand_strs[1].len(), 10);
    assert_eq!(rand_strs[2].len(), 10);
}

#[test]
fn test_build_rand_strs_zero_length_is_invalid() {
    assert_eq!(build_rand_strs(0, 3), Err(RegexSpeedError::InvalidLength));
}

#[test]
fn test_build_rand_strs_zero_count_succeeds_unchecked() {
    // The length is validated per generated string, so asking for no
    // strings succeeds even with a length that could not be generated.
    assert_eq!(build_rand_strs(0, 0), Ok(Vec::new()));
    assert_eq!(build_rand_strs(10, 0), Ok(Vec::new()));
}

#[test]
fn test_insert_substring_length_and_containment() {
    let text = build_rand_str(40).unwrap();
    let spliced = insert_substring(&text, "2024-01-01");
    assert_eq!(spliced.chars().count(), 40 + 10);
    assert!(spliced.contains("2024-01-01"));
}

#[test]
fn test_insert_substring_single_char_text() {
    // The only insertion index for a one-character text is zero.
    let spliced = insert_substring("x", "abc");
    assert_eq!(spliced, "abcx");
}

#[test]
fn test_insert_substring_multibyte_text() {
    // Insertion happens at a character position, never inside a
    // multi-byte character.
    let text = "\u{e9}\u{e9}\u{e9}\u{e9}";
    let spliced = insert_substring(text, "ok");
    assert_eq!(spliced.chars().count(), 6);
    assert!(spliced.contains("ok"));
    assert_eq!(spliced.chars().filter(|c| *c == '\u{e9}').count(), 4);
}
