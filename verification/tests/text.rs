use razer_hid::text::{
    chars_of, push_bool, push_byte_hex, push_chars, push_decimal, push_hex_digit, push_repeat,
    push_str, str_eq,
};

#[test]
fn characters_and_equality() {
    assert_eq!(chars_of("héllo"), vec!['h', 'é', 'l', 'l', 'o']);
    assert!(str_eq("abc", "abc"));
    assert!(!str_eq("abc", "abd"));
    assert!(!str_eq("abc", "ab"));
    assert!(str_eq("", ""));
}

#[test]
fn building_text() {
    let mut out = Vec::new();
    push_str(&mut out, "v");
    push_decimal(&mut out, 1);
    out.push('.');
    push_decimal(&mut out, 42);
    push_chars(&mut out, &vec![' ', '-']);
    push_repeat(&mut out, '=', 3);
    push_bool(&mut out, false);
    out.push(' ');
    push_byte_hex(&mut out, 0x0A);
    push_hex_digit(&mut out, 15);
    assert_eq!(out.iter().collect::<String>(), "v1.42 -===false 0x0af");
}
