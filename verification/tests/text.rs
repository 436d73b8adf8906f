use glcim::names::{compare_names, is_before};
use glcim::text::{decimal_text, pad_left, pad_right, same_text};
use std::cmp::Ordering;

#[test]
fn decimal_of_a_number() {
    assert_eq!(decimal_text(0), "0");
    assert_eq!(decimal_text(9), "9");
    assert_eq!(decimal_text(10), "10");
    assert_eq!(decimal_text(4096), "4096");
    assert_eq!(decimal_text(u64::MAX), "18446744073709551615");
}

#[test]
fn padding_counts_characters() {
    assert_eq!(pad_right("ab", 4), "ab  ");
    assert_eq!(pad_right("abcd", 4), "abcd");
    assert_eq!(pad_right("abcde", 4), "abcde");
    assert_eq!(pad_left("7", 3), "  7");
    assert_eq!(pad_left("1234", 3), "1234");
    assert_eq!(pad_right("é", 3), format!("{:3}", "é"));
    assert_eq!(pad_left("42", 9), format!("{:9}", 42));
}

#[test]
fn texts_are_compared_by_characters() {
    assert!(same_text("", ""));
    assert!(same_text("běžet", "běžet"));
    assert!(!same_text("a", "ab"));
    assert!(!same_text("ab", "ac"));
}

#[test]
fn names_are_ordered_like_strings() {
    let names = ["", "a", "aa", "b", "build", "build:2", "é", "z", "Z"];
    for a in names.iter() {
        for b in names.iter() {
            assert_eq!(compare_names(a, b), a.cmp(b));
            assert_eq!(is_before(a, b), a.cmp(b) == Ordering::Less);
        }
    }
}
