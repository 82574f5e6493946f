use scrypto_import::{
    decimal_string, is_field_ident, is_ident, is_plain_ident, join_strings, string_literal,
};

#[test]
fn test_is_ident() {
    assert!(is_ident("Sample"));
    assert!(is_ident("calculate_volume"));
    assert!(is_ident("_private"));
    assert!(is_ident("r#type"));
    assert!(is_ident("größe"));
    assert!(!is_ident(""));
    assert!(!is_ident("fn"));
    assert!(!is_ident("self"));
    assert!(!is_ident("_"));
    assert!(!is_ident("1abc"));
    assert!(!is_ident("two words"));
    assert!(!is_ident(" padded"));
    assert!(!is_ident("a-b"));
}

#[test]
fn test_is_plain_ident() {
    assert!(is_plain_ident("Sample"));
    assert!(!is_plain_ident("r#type"));
    assert!(!is_plain_ident("struct"));
}

#[test]
fn test_decimal_string() {
    assert_eq!(decimal_string(0), "0");
    assert_eq!(decimal_string(7), "7");
    assert_eq!(decimal_string(10), "10");
    assert_eq!(decimal_string(1234567), "1234567");
    assert_eq!(decimal_string(u64::MAX), "18446744073709551615");
}

#[test]
fn test_join_strings() {
    assert_eq!(join_strings(&vec![], ", "), "");
    assert_eq!(join_strings(&vec!["a".to_string()], ", "), "a");
    assert_eq!(
        join_strings(&vec!["a".to_string(), "b".to_string(), "c".to_string()], ", "),
        "a, b, c"
    );
}

#[test]
fn test_ident_decomposed_and_raw() {
    // A name in decomposed form (a combining mark after `o`) is accepted,
    // whatever the context the check runs in.
    assert!(is_ident("gro\u{308}\u{df}e"));
    assert!(is_ident("r#fn"));
    assert!(is_ident("r#match"));
    assert!(!is_ident("r#self"));
    assert!(!is_ident("r#crate"));
    assert!(!is_ident("r#_"));
    assert!(!is_ident("r#"));
    assert!(!is_ident("r#r#x"));
    assert!(is_ident("async"));
    assert!(is_ident("\u{3b1}\u{3b2}"));
    assert!(!is_ident("\u{308}x"));
}

#[test]
fn test_field_ident() {
    assert!(is_field_ident("_"));
    assert!(is_field_ident("x"));
    assert!(is_field_ident("r#type"));
    assert!(!is_field_ident("self"));
    assert!(!is_field_ident("__ "));
    assert!(!is_plain_ident("_"));
}

#[test]
fn test_string_literal() {
    assert_eq!(string_literal("Sample"), "\"Sample\"");
    assert_eq!(string_literal(""), "\"\"");
    assert_eq!(string_literal("a\"b\\c"), "\"a\\\"b\\\\c\"");
    assert_eq!(string_literal("it's"), "\"it's\"");
    assert_eq!(string_literal("\n\t"), "\"\\n\\t\"");
    // A NUL before an octal digit is written so that the digit stays apart.
    assert_eq!(string_literal("\u{0}1"), "\"\\x001\"");
    assert_eq!(string_literal("\u{0}9"), "\"\\09\"");
    assert_eq!(string_literal("a\u{0}"), "\"a\\0\"");
    // The same text as `proc_macro2::Literal::string`.
    for s in ["Sample", "\u{0}7x", "quote'\"", "tab\there", "\u{7f}\u{200b}"] {
        assert_eq!(string_literal(s), proc_macro2::Literal::string(s).to_string());
    }
}
