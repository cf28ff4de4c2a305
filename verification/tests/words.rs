use alertbot::words::{contains_text, has_duplicates, plural};

#[test]
fn plural_is_empty_only_for_one() {
    assert_eq!(plural(0), "s");
    assert_eq!(plural(1), "");
    assert_eq!(plural(2), "s");
    assert_eq!(plural(u64::MAX), "s");
}

#[test]
fn has_duplicates_finds_a_repeated_word() {
    let words = vec!["red".to_string(), "green".to_string(), "red".to_string()];
    assert!(has_duplicates(&words));
}

#[test]
fn has_duplicates_accepts_distinct_words() {
    let words = vec!["red".to_string(), "green".to_string(), "blue".to_string()];
    assert!(!has_duplicates(&words));
    assert!(!has_duplicates(&Vec::new()));
}

#[test]
fn contains_text_looks_for_the_whole_word() {
    let words = vec!["red".to_string(), "green".to_string()];
    assert!(contains_text(&words, "red"));
    assert!(contains_text(&words, "green"));
    assert!(!contains_text(&words, "re"));
    assert!(!contains_text(&words, "Red"));
    assert!(!contains_text(&words, ""));
    assert!(!contains_text(&Vec::new(), "red"));
}
