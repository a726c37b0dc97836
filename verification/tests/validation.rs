use name_list::validation::{is_valid, MIN_NAME_LEN};

#[test]
fn threshold_is_four_characters() {
    assert_eq!(MIN_NAME_LEN, 4);
}

#[test]
fn three_characters_are_too_few() {
    assert!(!is_valid("Bob"));
}

#[test]
fn four_characters_are_enough() {
    assert!(is_valid("Carl"));
}

#[test]
fn five_characters_are_enough() {
    assert!(is_valid("Alice"));
}

#[test]
fn empty_name_is_refused() {
    assert!(!is_valid(""));
}

#[test]
fn validity_is_length_of_at_least_four() {
    let candidates = vec!["", "a", "ab", "abc", "abcd", "abcde", "a b", "a  b", "    ", "Jo-Ann"];
    for candidate in candidates {
        assert_eq!(is_valid(candidate), candidate.chars().count() >= 4);
    }
}

#[test]
fn nothing_is_trimmed() {
    assert!(is_valid(" Al "));
    assert!(is_valid("    "));
    assert!(!is_valid("   "));
    assert!(is_valid("Al\n\t"));
}

#[test]
fn no_character_is_excluded() {
    assert!(is_valid("1234"));
    assert!(is_valid("<hr>"));
    assert!(is_valid("!?.,"));
}

#[test]
fn characters_are_counted_not_bytes() {
    // Three characters in nine bytes.
    assert!(!is_valid("日本語"));
    // Two characters in four bytes.
    assert!(!is_valid("éé"));
    // Four characters in twelve bytes.
    assert!(is_valid("日本語名"));
    // Four characters in sixteen bytes.
    assert!(is_valid("😀😀😀😀"));
    assert!(!is_valid("😀😀😀"));
}
