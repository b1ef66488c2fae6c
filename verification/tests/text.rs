use qmk_xap::text::{
    chars_lt, decimal_string, parse_hex, parse_hex_code, push_decimal, push_hex_byte_upper,
    str_chars, str_starts_with, trim_0x, trim_matches,
};

fn chars(s: &str) -> Vec<char> {
    s.chars().collect()
}

#[test]
fn hexadecimal_codes() {
    assert_eq!(parse_hex_code("0x0004"), Some(4));
    assert_eq!(parse_hex_code("0x7E40"), Some(0x7E40));
    assert_eq!(parse_hex_code("0x0x1f"), Some(0x1f));
    assert_eq!(parse_hex_code("ff"), Some(0xff));
    assert_eq!(parse_hex_code("+10"), Some(0x10));
    assert_eq!(parse_hex_code("0xFFFF"), Some(0xFFFF));
    assert_eq!(parse_hex_code("0x10000"), None);
    assert_eq!(parse_hex_code("0x"), None);
    assert_eq!(parse_hex_code("+"), None);
    assert_eq!(parse_hex_code("0xg1"), None);
    assert_eq!(parse_hex(&chars("1F"), 0xFF), Some(0x1F));
    assert_eq!(parse_hex(&chars("100"), 0xFF), None);
}

#[test]
fn leading_0x_is_stripped() {
    assert_eq!(trim_0x(&chars("0x0x12")), chars("12"));
    assert_eq!(trim_0x(&chars("x012")), chars("x012"));
    assert_eq!(trim_0x(&chars("0")), chars("0"));
}

#[test]
fn matching_characters_are_trimmed_on_both_ends() {
    assert_eq!(trim_matches(&chars("\"Acme\""), '"'), chars("Acme"));
    assert_eq!(trim_matches(&chars("\"\"a\"b\"\""), '"'), chars("a\"b"));
    assert_eq!(trim_matches(&chars("\"\"\""), '"'), chars(""));
    assert_eq!(trim_matches(&chars("plain"), '"'), chars("plain"));
}

#[test]
fn string_order() {
    assert!(chars_lt(&chars("Alpha"), &chars("Beta")));
    assert!(chars_lt(&chars("Solid"), &chars("Solid Color")));
    assert!(!chars_lt(&chars("Solid Color"), &chars("Solid")));
    assert!(!chars_lt(&chars("same"), &chars("same")));
    assert!(chars_lt(&chars("Z"), &chars("a")));
}

#[test]
fn numbers_as_text() {
    assert_eq!(decimal_string(0), "0");
    assert_eq!(decimal_string(131349), "131349");
    assert_eq!(decimal_string(u64::MAX), "18446744073709551615");
    let mut out = Vec::new();
    push_decimal(&mut out, 42);
    push_hex_byte_upper(&mut out, 0x3c);
    assert_eq!(out, chars("423C"));
}

#[test]
fn string_helpers() {
    assert_eq!(str_chars("äb"), vec!['ä', 'b']);
    assert!(str_starts_with("keycodes_0.0.1.hjson", "keycodes"));
    assert!(!str_starts_with("key", "keycodes"));
}
