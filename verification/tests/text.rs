use web3sniper::text::{
    decimal_string, eq_ignore_ascii_case, hex_string, join, starts_with, strip_prefix,
    to_ascii_lowercase, trim_str,
};

#[test]
fn decimal_renders_without_leading_zeros() {
    assert_eq!(decimal_string(0), "0");
    assert_eq!(decimal_string(7), "7");
    assert_eq!(decimal_string(52837125), "52837125");
    assert_eq!(decimal_string(u64::MAX), u64::MAX.to_string());
}

#[test]
fn hex_is_prefixed_and_lowercase() {
    assert_eq!(hex_string(&[]), "0x");
    assert_eq!(hex_string(&[0xab, 0x01, 0xff, 0x00]), "0xab01ff00");
}

#[test]
fn trim_removes_unicode_whitespace() {
    assert_eq!(trim_str("  a b \t\n"), "a b");
    assert_eq!(trim_str("\u{3000}x\u{a0}"), "x");
    assert_eq!(trim_str("   "), "");
    assert_eq!(trim_str(""), "");
    assert_eq!(trim_str("\u{200b}x"), "\u{200b}x");
}

#[test]
fn trim_agrees_with_std() {
    for s in ["  event Foo(uint256) ", "\t\r\n", "x", " \u{2028}y\u{85} ", "a  b"] {
        assert_eq!(trim_str(s), s.trim());
    }
}

#[test]
fn prefixes() {
    assert!(starts_with("event Foo", "event "));
    assert!(!starts_with("even", "event "));
    assert_eq!(strip_prefix("0xabc", "0x"), Some("abc"));
    assert_eq!(strip_prefix("abc", "0x"), None);
}

#[test]
fn ascii_case() {
    assert_eq!(to_ascii_lowercase("TrUe É"), "true É");
    assert!(eq_ignore_ascii_case("0xABCdef", "0xabcDEF"));
    assert!(!eq_ignore_ascii_case("0xabc", "0xabd"));
    assert!(!eq_ignore_ascii_case("0xabc", "0xab"));
}

#[test]
fn join_separates_items() {
    let list = vec!["rh".to_string(), "base".to_string(), "eth".to_string()];
    assert_eq!(join(&list, ", "), "rh, base, eth");
    assert_eq!(join(&vec![], ", "), "");
    assert_eq!(join(&vec!["one".to_string()], ", "), "one");
}
