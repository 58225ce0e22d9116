use hydrocube::text::contains;
use hydrocube::text::matches_at;

#[test]
fn a_pattern_stands_where_its_characters_do() {
    assert!(matches_at("hello world", 0, "hello"));
    assert!(matches_at("hello world", 6, "world"));
    assert!(!matches_at("hello world", 1, "hello"));
    assert!(!matches_at("hello world", 7, "world"));
    assert!(!matches_at("hello", 3, "lox"));
    assert!(!matches_at("hello", 9, "h"));
}

#[test]
fn the_empty_pattern_stands_everywhere_inside() {
    assert!(matches_at("abc", 0, ""));
    assert!(matches_at("abc", 3, ""));
    assert!(!matches_at("abc", 4, ""));
    assert!(matches_at("", 0, ""));
    assert!(contains("", ""));
    assert!(contains("abc", ""));
}

#[test]
fn positions_count_characters_not_bytes() {
    assert!(matches_at("\u{e9}t\u{e9} 2024", 4, "2024"));
    assert!(!matches_at("\u{e9}t\u{e9} 2024", 6, "2024"));
    assert!(contains("na\u{ef}ve caf\u{e9}", "caf\u{e9}"));
}

#[test]
fn a_pattern_is_found_anywhere_or_nowhere() {
    assert!(contains("the table does not exist!", " does not exist"));
    assert!(contains("abcabd", "abd"));
    assert!(contains("abc", "abc"));
    assert!(contains("abc", "c"));
    assert!(!contains("abc", "abcd"));
    assert!(!contains("abcabc", "acb"));
    assert!(!contains("", "a"));
}
