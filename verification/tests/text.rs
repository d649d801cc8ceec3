use watchdoc::{decimal_text, replace_char, starts_with, str_eq};

#[test]
fn decimal_text_of_small_numbers() {
    assert_eq!(decimal_text(0), "0");
    assert_eq!(decimal_text(7), "7");
    assert_eq!(decimal_text(9), "9");
    assert_eq!(decimal_text(10), "10");
}

#[test]
fn decimal_text_of_large_numbers() {
    assert_eq!(decimal_text(4153), "4153");
    assert_eq!(decimal_text(10000), "10000");
    assert_eq!(decimal_text(65535), "65535");
    assert_eq!(decimal_text(60606), "60606");
}

#[test]
fn replace_char_replaces_every_occurrence() {
    assert_eq!(replace_char("a-b-c", '-', '_'), "a_b_c");
    assert_eq!(replace_char("--", '-', '_'), "__");
    assert_eq!(replace_char("plain", '-', '_'), "plain");
    assert_eq!(replace_char("", '-', '_'), "");
    assert_eq!(replace_char("grüße-ß", '-', '_'), "grüße_ß");
}

#[test]
fn starts_with_checks_the_prefix() {
    assert!(starts_with("text/html", "text/html"));
    assert!(starts_with("text/html; charset=utf-8", "text/html"));
    assert!(starts_with("anything", ""));
    assert!(starts_with("", ""));
    assert!(!starts_with("text", "text/html"));
    assert!(!starts_with("", "a"));
    assert!(!starts_with("xtext/html", "text/html"));
}

#[test]
fn str_eq_compares_characters() {
    assert!(str_eq("crate", "crate"));
    assert!(str_eq("", ""));
    assert!(!str_eq("crate", "crates"));
    assert!(!str_eq("crate", "Crate"));
}
