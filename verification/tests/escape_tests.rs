use tag_autocomplete::escape::{escape_like, to_search_pattern};

// A stub of the store's wildcard matcher: `%` matches any run, `_` any one
// character, `\` makes the next pattern character literal.
fn like_matches(p: &[char], t: &[char]) -> bool {
    if p.is_empty() {
        return t.is_empty();
    }
    match p[0] {
        '%' => (0..=t.len()).any(|i| like_matches(&p[1..], &t[i..])),
        '\\' => p.len() >= 2 && !t.is_empty() && t[0] == p[1] && like_matches(&p[2..], &t[1..]),
        '_' => !t.is_empty() && like_matches(&p[1..], &t[1..]),
        c => !t.is_empty() && t[0] == c && like_matches(&p[1..], &t[1..]),
    }
}

fn matches_str(pattern: &str, text: &str) -> bool {
    let p: Vec<char> = pattern.chars().collect();
    let t: Vec<char> = text.chars().collect();
    like_matches(&p, &t)
}

#[test]
fn escapes_store_metacharacters() {
    assert_eq!(escape_like(&"100%".to_string()), "100\\%");
    assert_eq!(escape_like(&"a_b".to_string()), "a\\_b");
}

#[test]
fn translates_dataset_wildcard() {
    assert_eq!(escape_like(&"a*b".to_string()), "a%b");
    assert_eq!(escape_like(&"a\\*b".to_string()), "a\\%b");
}

#[test]
fn leaves_plain_text_alone() {
    assert_eq!(escape_like(&"catgirl".to_string()), "catgirl");
    assert_eq!(escape_like(&String::new()), "");
}

#[test]
fn search_pattern_appends_store_wildcard() {
    assert_eq!(to_search_pattern(&"foobar".to_string()), "foobar%");
    assert_eq!(to_search_pattern(&"fo_o".to_string()), "fo\\_o%");
    assert_eq!(to_search_pattern(&String::new()), "%");
}

#[test]
fn pattern_matches_exactly_the_key_prefix() {
    let pattern = to_search_pattern(&"fo_o".to_string());
    assert!(matches_str(&pattern, "fo_o"));
    assert!(matches_str(&pattern, "fo_obar"));
    // the literal `_` of the key is not a wildcard
    assert!(!matches_str(&pattern, "foxo"));
    assert!(!matches_str(&pattern, "fo_"));
}

#[test]
fn literal_percent_survives_round_trip() {
    let pattern = to_search_pattern(&"100%".to_string());
    assert!(matches_str(&pattern, "100%"));
    assert!(matches_str(&pattern, "100%off"));
    // the literal `%` of the key is not a wildcard
    assert!(!matches_str(&pattern, "1000"));
}
