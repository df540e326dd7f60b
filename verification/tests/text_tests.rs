use memphis::json_text::{append_escaped, append_json_bool, append_json_str};
use memphis::text::{
    bytes_to_hex, bytes_to_utf8, i64_to_dec, is_blank, str_contains, str_eq, u64_to_dec,
};

#[test]
fn decimal_rendering() {
    assert_eq!(u64_to_dec(0).as_str(), "0");
    assert_eq!(u64_to_dec(7).as_str(), "7");
    assert_eq!(u64_to_dec(10).as_str(), "10");
    assert_eq!(u64_to_dec(604800).as_str(), "604800");
    assert_eq!(u64_to_dec(u64::MAX).as_str(), "18446744073709551615");
    assert_eq!(i64_to_dec(-1).as_str(), "-1");
    assert_eq!(i64_to_dec(0).as_str(), "0");
    assert_eq!(i64_to_dec(i64::MIN).as_str(), "-9223372036854775808");
}

#[test]
fn hex_rendering() {
    assert_eq!(bytes_to_hex(&vec![]).as_str(), "");
    assert_eq!(bytes_to_hex(&vec![0x00, 0xff, 0x1a]).as_str(), "00ff1a");
    assert_eq!(bytes_to_hex(&vec![0xde, 0xad, 0xbe, 0xef]).as_str(), "deadbeef");
}

#[test]
fn blank_test() {
    assert!(is_blank(""));
    assert!(is_blank(" \t\r\n"));
    assert!(!is_blank(" x "));
}

#[test]
fn substring_search() {
    assert!(str_contains("an authorization violation happened", "authorization violation"));
    assert!(!str_contains("authorized", "authorization"));
    assert!(str_contains("abc", ""));
    assert!(!str_contains("ab", "abc"));
    assert!(str_contains("aab", "ab"));
}

#[test]
fn string_equality() {
    assert!(str_eq("json", "json"));
    assert!(!str_eq("json", "jsom"));
    assert!(!str_eq("json", "jsonx"));
}

#[test]
fn utf8_decoding() {
    assert_eq!(bytes_to_utf8(&b"hello".to_vec()).unwrap().as_str(), "hello");
    assert!(bytes_to_utf8(&vec![0xff, 0xfe]).is_none());
}

#[test]
fn json_escaping() {
    let mut s = String::new();
    append_json_str(&mut s, "a\"b\\c\nd");
    assert_eq!(s.as_str(), "\"a\\\"b\\\\c\\nd\"");

    let mut s = String::new();
    append_escaped(&mut s, "\t\r\u{8}\u{c}\u{1}\u{1f}");
    assert_eq!(s.as_str(), "\\t\\r\\b\\f\\u0001\\u001f");

    let mut s = String::new();
    append_json_bool(&mut s, true);
    append_json_bool(&mut s, false);
    assert_eq!(s.as_str(), "truefalse");
}
