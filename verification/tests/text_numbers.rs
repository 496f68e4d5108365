use discord_controls::decimal::{PortError, i64_to_decimal, parse_port, u64_to_decimal};
use discord_controls::json::{Json, str_eq, value_to_string};
use discord_controls::text::{contains_str, is_blank_str, trim_str};

#[test]
fn decimal_text_of_unsigned_integers() {
    assert_eq!(u64_to_decimal(0), "0");
    assert_eq!(u64_to_decimal(7), "7");
    assert_eq!(u64_to_decimal(42), "42");
    assert_eq!(u64_to_decimal(1000), "1000");
    assert_eq!(u64_to_decimal(u64::MAX), "18446744073709551615");
}

#[test]
fn decimal_text_of_signed_integers() {
    assert_eq!(i64_to_decimal(0), "0");
    assert_eq!(i64_to_decimal(-5), "-5");
    assert_eq!(i64_to_decimal(4006), "4006");
    assert_eq!(i64_to_decimal(i64::MIN), "-9223372036854775808");
    assert_eq!(i64_to_decimal(i64::MAX), "9223372036854775807");
}

#[test]
fn port_parsing_follows_u16_from_str() {
    assert_eq!(parse_port("8080"), Ok(8080));
    assert_eq!(parse_port("+80"), Ok(80));
    assert_eq!(parse_port("007"), Ok(7));
    assert_eq!(parse_port("65535"), Ok(65535));
    assert_eq!(parse_port("65536"), Err(PortError::PosOverflow));
    assert_eq!(parse_port("99999999999"), Err(PortError::PosOverflow));
    assert_eq!(parse_port("99999x"), Err(PortError::PosOverflow));
    assert_eq!(parse_port(""), Err(PortError::Empty));
    assert_eq!(parse_port("+"), Err(PortError::InvalidDigit));
    assert_eq!(parse_port("-1"), Err(PortError::InvalidDigit));
    assert_eq!(parse_port("12a"), Err(PortError::InvalidDigit));
    assert_eq!(parse_port(" 12"), Err(PortError::InvalidDigit));
    assert_eq!(parse_port("++1"), Err(PortError::InvalidDigit));
    for n in [0u16, 1, 9, 10, 255, 28196, 65535] {
        assert_eq!(parse_port(&n.to_string()), Ok(n));
    }
}

#[test]
fn port_errors_read_as_std_reports_them() {
    for text in ["", "+", "-1", "12a", "65536", "99999x", "1x99999", "\u{e9}"] {
        let mine = parse_port(text).err().unwrap();
        let theirs = text.parse::<u16>().unwrap_err().to_string();
        assert_eq!(mine.text(), theirs, "for {:?}", text);
    }
}

#[test]
fn trimming_removes_unicode_white_space() {
    assert_eq!(trim_str("  General  "), "General");
    assert_eq!(trim_str("\t\n x y \r"), "x y");
    assert_eq!(trim_str("\u{3000}wide\u{a0}"), "wide");
    assert_eq!(trim_str("   "), "");
    assert!(is_blank_str(" \u{2028} "));
    assert!(!is_blank_str(" a "));
    for s in ["", "a", " a", "a ", "\u{85}b\u{200a}", "x\u{200b}"] {
        assert_eq!(trim_str(s), s.trim());
    }
}

#[test]
fn substring_search() {
    assert!(contains_str("Discord RPC error 5003: busy", "Discord RPC error 5003"));
    assert!(contains_str("abc", ""));
    assert!(!contains_str("Discord RPC error 500", "Discord RPC error 5003"));
    assert!(contains_str("xxabab", "abab"));
    assert!(!contains_str("", "a"));
}

#[test]
fn string_equality() {
    assert!(str_eq("READY", "READY"));
    assert!(!str_eq("READY", "READ"));
    assert!(!str_eq("é", "e"));
}

#[test]
fn value_to_string_renders_identifiers() {
    assert_eq!(value_to_string(&Json::Str("123".to_string())), "123");
    assert_eq!(value_to_string(&Json::UInt(1234567890123)), "1234567890123");
    assert_eq!(value_to_string(&Json::NegInt(-42)), "-42");
    assert_eq!(value_to_string(&Json::Float("1.5".to_string())), "");
    assert_eq!(value_to_string(&Json::Bool(true)), "");
    assert_eq!(value_to_string(&Json::Null), "");
    assert_eq!(value_to_string(&Json::Array(Vec::new())), "");
}

#[test]
fn json_member_lookup() {
    let object = Json::Object(vec![
        ("a".to_string(), Json::UInt(1)),
        ("b".to_string(), Json::Object(vec![("c".to_string(), Json::Str("deep".to_string()))])),
    ]);
    assert!(matches!(object.get("a"), Some(Json::UInt(1))));
    assert!(object.get("z").is_none());
    assert_eq!(object.get2("b", "c").and_then(|j| j.as_str()), Some("deep"));
    assert!(object.get2("a", "c").is_none());
    assert!(Json::Str("x".to_string()).get("a").is_none());
    assert_eq!(object.str_member("a"), None);
    assert_eq!(Json::UInt(u64::MAX).as_i64(), None);
    assert_eq!(Json::UInt(5).as_i64(), Some(5));
    assert_eq!(Json::NegInt(-5).as_i64(), Some(-5));
}
