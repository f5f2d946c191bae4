use cnctd_git::text::{contains_text, last_segment_of, without_prefix};

#[test]
fn last_segment_follows_the_last_slash() {
    assert_eq!(last_segment_of("https://github.com/acme"), "acme");
}

#[test]
fn last_segment_of_text_without_slash_is_the_text() {
    assert_eq!(last_segment_of("acme"), "acme");
}

#[test]
fn last_segment_of_text_ending_in_slash_is_empty() {
    assert_eq!(last_segment_of("https://github.com/"), "");
}

#[test]
fn last_segment_of_empty_text_is_empty() {
    assert_eq!(last_segment_of(""), "");
}

#[test]
fn last_segment_counts_characters_not_bytes() {
    assert_eq!(last_segment_of("https://exämple.org/büro/zürich"), "zürich");
}

#[test]
fn contains_text_finds_an_equal_string() {
    let list = vec!["a".to_string(), "b".to_string()];
    assert!(contains_text(&list, &"b".to_string()));
    assert!(!contains_text(&list, &"c".to_string()));
    assert!(!contains_text(&Vec::new(), &"a".to_string()));
}

#[test]
fn prefix_is_taken_off_where_the_text_begins_with_it() {
    assert_eq!(without_prefix("refs/heads/main", "refs/heads/"), Some("main".to_string()));
    assert_eq!(without_prefix("refs/heads/", "refs/heads/"), Some(String::new()));
    assert_eq!(without_prefix("abc", ""), Some("abc".to_string()));
    assert_eq!(without_prefix("über/x", "über/"), Some("x".to_string()));
}

#[test]
fn text_that_does_not_begin_with_the_prefix_yields_nothing() {
    assert_eq!(without_prefix("refs/tags/v1", "refs/heads/"), None);
    assert_eq!(without_prefix("refs", "refs/heads/"), None);
    assert_eq!(without_prefix("", "x"), None);
}
