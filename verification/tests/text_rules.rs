//! The stop-marker rules that end the cleanup decode loop.

use ocr_pipeline::text::{append_fragment, find_marker, str_eq};

#[test]
fn finds_end_marker() {
    assert_eq!(find_marker("hello<|end|>"), Some(5));
}

#[test]
fn finds_end_of_text_marker() {
    assert_eq!(find_marker("x<|endoftext|>y"), Some(1));
}

#[test]
fn finds_earliest_of_both_markers() {
    assert_eq!(find_marker("ab<|end|>cd<|endoftext|>"), Some(2));
    assert_eq!(find_marker("ab<|endoftext|>cd<|end|>"), Some(2));
}

#[test]
fn marker_at_start() {
    assert_eq!(find_marker("<|end|>rest"), Some(0));
}

#[test]
fn no_marker_in_plain_text() {
    assert_eq!(find_marker("hello"), None);
    assert_eq!(find_marker(""), None);
    assert_eq!(find_marker("<|end"), None);
    assert_eq!(find_marker("<|endof|>"), None);
}

#[test]
fn append_fragment_cuts_at_marker() {
    let mut out = String::new();
    let stopped = append_fragment(&mut out, "hello<|end|>");
    assert!(stopped);
    assert_eq!(out, "hello");
}

#[test]
fn append_fragment_cuts_at_end_of_text() {
    let mut out = String::from("abc");
    let stopped = append_fragment(&mut out, "de<|endoftext|>tail");
    assert!(stopped);
    assert_eq!(out, "abcde");
}

#[test]
fn append_fragment_keeps_marker_free_text() {
    let mut out = String::from("a");
    let stopped = append_fragment(&mut out, "bc");
    assert!(!stopped);
    assert_eq!(out, "abc");
}

#[test]
fn str_eq_compares_characters() {
    assert!(str_eq("abc", "abc"));
    assert!(!str_eq("abc", "abd"));
    assert!(!str_eq("abc", "ab"));
    assert!(str_eq("", ""));
}
