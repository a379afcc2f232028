use threshold_u2f::text::{chars_of, decimal_string, parse_u32_text, text_equal, text_less};

#[test]
fn decimal_numerals() {
    assert_eq!(decimal_string(0), "0");
    assert_eq!(decimal_string(7), "7");
    assert_eq!(decimal_string(10), "10");
    assert_eq!(decimal_string(1234567890), "1234567890");
    assert_eq!(decimal_string(u64::MAX), u64::MAX.to_string());
}

#[test]
fn parse_like_std() {
    for s in ["", "+", "-", "0", "+0", "-0", "00012", "4294967295", "4294967296", "99999999999999", "1a", " 1", "+12", "١", "٣"] {
        assert_eq!(parse_u32_text(s), s.parse::<u32>().ok(), "input {:?}", s);
    }
}

#[test]
fn decimal_roundtrip() {
    for n in [0u32, 1, 9, 10, 65535, 4294967295] {
        assert_eq!(parse_u32_text(&decimal_string(n as u64)), Some(n));
    }
}

#[test]
fn string_order() {
    assert!(text_less("a", "b"));
    assert!(!text_less("b", "a"));
    assert!(text_less("", "a"));
    assert!(!text_less("a", "a"));
    assert!(text_less("ab", "b"));
    assert!(text_less("Z", "a"));
    assert!(text_less("z", "é"));
    assert!(text_equal("times_used", "times_used"));
    assert!(!text_equal("times_used", "times_use"));
    assert_eq!(chars_of("héllo"), vec!['h', 'é', 'l', 'l', 'o']);
}
