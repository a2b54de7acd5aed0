use subgrid::text::{
    chars_of, concat_text, decimal_string, parse_i32, parse_u32, prefix_bytes, same_text, utf8_len_below,
    write_signed_decimal, IntErrorKind,
};
use subgrid::uri::encode_uri_component;

fn std_kind(e: &std::num::ParseIntError) -> IntErrorKind {
    match e.kind() {
        std::num::IntErrorKind::Empty => IntErrorKind::Empty,
        std::num::IntErrorKind::InvalidDigit => IntErrorKind::InvalidDigit,
        std::num::IntErrorKind::PosOverflow => IntErrorKind::PosOverflow,
        std::num::IntErrorKind::NegOverflow => IntErrorKind::NegOverflow,
        other => panic!("unexpected kind {:?}", other),
    }
}

const SAMPLES: &[&str] = &[
    "", "0", "42", "+7", "+", "-", "-1", "--1", "+-1", "007", "12a", " 1", "1 ", "4294967295",
    "4294967296", "99999999999x", "2147483647", "2147483648", "-2147483648", "-2147483649",
    "-99999999999x", "é", "1é", "+0", "-0",
];

#[test]
fn parse_u32_agrees_with_std() {
    for s in SAMPLES {
        let ours = parse_u32(s);
        let theirs = s.parse::<u32>().map_err(|e| std_kind(&e));
        assert_eq!(ours, theirs, "input {:?}", s);
    }
}

#[test]
fn parse_i32_agrees_with_std() {
    for s in SAMPLES {
        let ours = parse_i32(s);
        let theirs = s.parse::<i32>().map_err(|e| std_kind(&e));
        assert_eq!(ours, theirs, "input {:?}", s);
    }
}

#[test]
fn parse_u32_exact_values() {
    assert_eq!(parse_u32("42"), Ok(42));
    assert_eq!(parse_u32("+7"), Ok(7));
    assert_eq!(parse_u32(""), Err(IntErrorKind::Empty));
    assert_eq!(parse_u32("+"), Err(IntErrorKind::InvalidDigit));
    assert_eq!(parse_u32("-1"), Err(IntErrorKind::InvalidDigit));
    assert_eq!(parse_u32("4294967295"), Ok(u32::MAX));
    assert_eq!(parse_u32("4294967296"), Err(IntErrorKind::PosOverflow));
    assert_eq!(parse_u32("99999999999x"), Err(IntErrorKind::PosOverflow));
}

#[test]
fn parse_i32_exact_values() {
    assert_eq!(parse_i32("-2147483648"), Ok(i32::MIN));
    assert_eq!(parse_i32("-2147483649"), Err(IntErrorKind::NegOverflow));
    assert_eq!(parse_i32("2147483648"), Err(IntErrorKind::PosOverflow));
    assert_eq!(parse_i32("-"), Err(IntErrorKind::InvalidDigit));
    assert_eq!(parse_i32("16"), Ok(16));
}

#[test]
fn error_messages_match_std() {
    assert_eq!(IntErrorKind::Empty.message(), "".parse::<u32>().unwrap_err().to_string());
    assert_eq!(IntErrorKind::InvalidDigit.message(), "x".parse::<u32>().unwrap_err().to_string());
    assert_eq!(IntErrorKind::PosOverflow.message(), "4294967296".parse::<u32>().unwrap_err().to_string());
    assert_eq!(IntErrorKind::NegOverflow.message(), "-2147483649".parse::<i32>().unwrap_err().to_string());
}

#[test]
fn decimal_rendering() {
    assert_eq!(decimal_string(0), "0");
    assert_eq!(decimal_string(7), "7");
    assert_eq!(decimal_string(1234567890123), "1234567890123");
    assert_eq!(decimal_string(u64::MAX), u64::MAX.to_string());
    let mut s = String::from("x=");
    write_signed_decimal(&mut s, -305);
    assert_eq!(s, "x=-305");
    let mut t = String::new();
    write_signed_decimal(&mut t, i64::MIN);
    assert_eq!(t, i64::MIN.to_string());
}

#[test]
fn rendered_numbers_read_back() {
    for n in [0u32, 1, 9, 10, 99, 100, 65535, 4294967295] {
        assert_eq!(parse_u32(&decimal_string(n as u64)), Ok(n));
    }
    for i in [i32::MIN, -1000, -1, 0, 1, 14, i32::MAX] {
        let mut s = String::new();
        write_signed_decimal(&mut s, i as i64);
        assert_eq!(parse_i32(&s), Ok(i));
    }
}

#[test]
fn uri_component_encoding() {
    assert_eq!(encode_uri_component("a b"), "a%20b");
    assert_eq!(encode_uri_component("hello, world!"), "hello%2C%20world!");
    assert_eq!(encode_uri_component("A-z_.!~*'()09"), "A-z_.!~*'()09");
    assert_eq!(encode_uri_component("\n"), "%0A");
    assert_eq!(encode_uri_component("/?:@&=+$#"), "%2F%3F%3A%40%26%3D%2B%24%23");
    assert_eq!(encode_uri_component("é"), "%C3%A9");
    assert_eq!(encode_uri_component("€"), "%E2%82%AC");
    assert_eq!(encode_uri_component("🚀"), "%F0%9F%9A%80");
    assert_eq!(encode_uri_component(""), "");
}

#[test]
fn leading_byte_prefixes() {
    assert_eq!(prefix_bytes("2024-05-01T10:00:00Z", 10), Some("2024-05-01".to_string()));
    assert_eq!(prefix_bytes("short", 10), None);
    assert_eq!(prefix_bytes("ééééé", 10), Some("ééééé".to_string()));
    assert_eq!(prefix_bytes("abcdefghié", 10), None);
    assert_eq!(prefix_bytes("abc", 0), Some(String::new()));
    for (s, n) in [("2024-05-01", 10u64), ("héllo", 2), ("héllo", 3), ("", 0), ("a", 1)] {
        assert_eq!(prefix_bytes(s, n), s.get(0..n as usize).map(|p| p.to_string()), "{:?} {}", s, n);
    }
}

#[test]
fn utf8_length_threshold() {
    assert!(utf8_len_below("ab", 3));
    assert!(utf8_len_below("é", 3));
    assert!(!utf8_len_below("éa", 3));
    assert!(!utf8_len_below("abc", 3));
    assert!(!utf8_len_below("", 0));
}

#[test]
fn small_string_helpers() {
    assert_eq!(concat_text("ab", "cd"), "abcd");
    assert!(same_text("lua-5.4", "lua-5.4"));
    assert!(!same_text("lua-5.4", "lua-5.3"));
    assert!(!same_text("lua", "lua-5.4"));
    assert_eq!(chars_of("añb"), vec!['a', 'ñ', 'b']);
}
