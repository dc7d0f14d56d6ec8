use lua_llama::text::{ends_with, joined_ends_with, starts_with};

#[test]
fn prefixes() {
    assert!(starts_with("--comment", "--"));
    assert!(starts_with("--", "--"));
    assert!(starts_with("x", ""));
    assert!(!starts_with("-", "--"));
    assert!(!starts_with("x--", "--"));
}

#[test]
fn suffixes() {
    assert!(ends_with("Hello\n\n", "\n\n"));
    assert!(ends_with("x", ""));
    assert!(!ends_with("\n", "\n\n"));
    assert!(!ends_with("\n\nx", "\n\n"));
}

#[test]
fn suffix_of_joined_text() {
    assert!(joined_ends_with("Hello", "\n\n", "\n\n"));
    assert!(joined_ends_with("Hello\n", "\n", "\n\n"));
    assert!(joined_ends_with("Hello\n\n", "", "\n\n"));
    assert!(joined_ends_with("", "ab", "ab"));
    assert!(joined_ends_with("a", "b", "ab"));
    assert!(joined_ends_with("xa", "b", ""));
    assert!(!joined_ends_with("Hello", "\n", "\n\n"));
    assert!(!joined_ends_with("", "b", "ab"));
    assert!(!joined_ends_with("b", "b", "ab"));
    assert!(!joined_ends_with("ab", "c", "ab"));
}

#[test]
fn suffix_of_joined_text_with_wide_characters() {
    assert!(joined_ends_with("下", "雨。", "雨。"));
    assert!(joined_ends_with("下雨", "。", "雨。"));
    assert!(!joined_ends_with("下雨", "、", "雨。"));
}
