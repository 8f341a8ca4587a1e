use docframe::strings::{contains_text, same_text};

#[test]
fn same_text_compares_all_of_the_text() {
    assert!(same_text("", ""));
    assert!(same_text("cover", "cover"));
    assert!(!same_text("cover", "covet"));
    assert!(!same_text("cover", "cove"));
    assert!(!same_text("cove", "cover"));
    assert!(!same_text("", "a"));
    assert!(same_text("äöü→", "äöü→"));
    assert!(!same_text("äöü→", "äöü←"));
}

#[test]
fn contains_text_finds_the_text_anywhere() {
    assert!(contains_text("", ""));
    assert!(contains_text("abc", ""));
    assert!(!contains_text("", "a"));
    assert!(contains_text("abc", "a"));
    assert!(contains_text("abc", "b"));
    assert!(contains_text("abc", "c"));
    assert!(contains_text("abc", "abc"));
    assert!(contains_text("abc", "bc"));
    assert!(!contains_text("abc", "abcd"));
    assert!(!contains_text("abc", "ac"));
    assert!(!contains_text("abc", "cb"));
    assert!(contains_text("aaab", "aab"));
    assert!(contains_text("grüße", "üß"));
    assert!(!contains_text("grüße", "us"));
}
