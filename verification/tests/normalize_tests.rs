use tag_autocomplete::errors::AutocompleteError;
use tag_autocomplete::normalize::validate_transform_tag;

#[test]
fn rejects_too_short() {
    assert_eq!(validate_transform_tag("ab"), Err(AutocompleteError::BadRequest));
    assert_eq!(validate_transform_tag(""), Err(AutocompleteError::BadRequest));
}

#[test]
fn rejects_too_long() {
    let long = "a".repeat(101);
    assert_eq!(validate_transform_tag(&long), Err(AutocompleteError::BadRequest));
    let edge = "a".repeat(100);
    assert_eq!(validate_transform_tag(&edge), Ok("a".repeat(100)));
}

#[test]
fn length_is_measured_in_bytes_before_normalization() {
    // two characters, three bytes: long enough
    assert_eq!(validate_transform_tag("\u{e9}a"), Ok("\u{e9}a".to_string()));
    // whitespace padding counts toward the raw length even though it is stripped
    assert_eq!(validate_transform_tag("  a"), Ok("a".to_string()));
}

#[test]
fn normalizes_example_input() {
    // NFC + lowercase + strip `%`/`*` + remove all whitespace
    assert_eq!(validate_transform_tag("  F\u{f4}o%Bar*"), Ok("f\u{f4}obar".to_string()));
    assert_eq!("f\u{f4}obar".len(), 7);
}

#[test]
fn composes_decomposed_input() {
    // 'o' followed by a combining circumflex composes to a single character
    assert_eq!(validate_transform_tag("  Fo\u{302}o%Bar*"), Ok("f\u{f4}obar".to_string()));
}

#[test]
fn lowercases_input() {
    assert_eq!(validate_transform_tag("CATGIRL"), Ok("catgirl".to_string()));
}

#[test]
fn strips_all_whitespace_classes() {
    assert_eq!(validate_transform_tag("a b\tc\nd\u{a0}e"), Ok("abcde".to_string()));
}

#[test]
fn wildcard_only_input_flows_through_empty() {
    // documented edge case: the post-transform empty key is not rejected
    assert_eq!(validate_transform_tag("***"), Ok(String::new()));
    assert_eq!(validate_transform_tag("%%%"), Ok(String::new()));
}
