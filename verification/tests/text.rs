use frb_run::text::{decimal_text, join_texts, str_ends_with, str_eq, str_starts_with, trim};

#[test]
fn white_space_is_that_of_std() {
    for c in '\0'..='\u{10ffff}' {
        let text = c.to_string();
        assert_eq!(trim(&text), text.trim(), "{c:?}");
    }
    assert_eq!(trim(" \u{a0}a b\u{3000}\n"), "a b");
    assert_eq!(trim(""), "");
}

#[test]
fn numbers_are_written_as_std_writes_them() {
    for i in [0, 7, 10, 42, 109, -1, -90, 1234567890, i64::MAX, i64::MIN] {
        assert_eq!(decimal_text(i), i.to_string());
    }
}

#[test]
fn texts_are_joined_and_compared() {
    let items = ["a".to_owned(), "".to_owned(), "é".to_owned()];
    assert_eq!(join_texts(&items, ", "), "a, , é");
    assert_eq!(join_texts(&[], ","), "");
    assert!(str_eq("é", "é"));
    assert!(!str_eq("e", "é"));
    assert!(str_starts_with("éa", "é"));
    assert!(!str_starts_with("é", "éa"));
    assert!(str_ends_with("aé", "é"));
    assert!(!str_ends_with("aé", "a"));
}
