use http_imager::text::{chars_of, parse_u8, push_decimal, push_signed_decimal, replace, same_text, starts_with};

#[test]
fn parse_u8_accepts_plain_numbers() {
    assert_eq!(parse_u8("1"), Some(1));
    assert_eq!(parse_u8("42"), Some(42));
    assert_eq!(parse_u8("255"), Some(255));
    assert_eq!(parse_u8("007"), Some(7));
    assert_eq!(parse_u8("+9"), Some(9));
}

#[test]
fn parse_u8_refuses_what_str_parse_refuses() {
    for s in ["", "+", "-1", "256", "1000", "12a", " 1", "1 ", "0x1", "-0"] {
        assert_eq!(parse_u8(s), s.parse::<u8>().ok(), "input {:?}", s);
    }
}

#[test]
fn parse_u8_matches_str_parse_everywhere_small() {
    for n in 0u32..400 {
        let s = n.to_string();
        assert_eq!(parse_u8(&s), s.parse::<u8>().ok());
        let plus = format!("+{}", n);
        assert_eq!(parse_u8(&plus), plus.parse::<u8>().ok());
    }
}

#[test]
fn decimal_round_trip_for_every_byte() {
    for n in 0u8..=255 {
        let mut s = String::new();
        push_decimal(&mut s, n as u64);
        assert_eq!(s, n.to_string());
        assert_eq!(parse_u8(&s), Some(n));
    }
}

#[test]
fn decimal_of_large_values() {
    let mut s = String::from("x");
    push_decimal(&mut s, u64::MAX);
    assert_eq!(s, format!("x{}", u64::MAX));
    let mut z = String::new();
    push_decimal(&mut z, 0);
    assert_eq!(z, "0");
}

#[test]
fn signed_decimal_matches_display() {
    for i in [0i32, 5, -5, 1234, -1234, i32::MAX, i32::MIN] {
        let mut s = String::new();
        push_signed_decimal(&mut s, i);
        assert_eq!(s, i.to_string());
    }
}

#[test]
fn prefixes_and_equality() {
    assert!(starts_with("169.254.1.1", "169."));
    assert!(!starts_with("10.169.0.1", "169."));
    assert!(starts_with("fe80::1", "fe80::"));
    assert!(!starts_with("fe8", "fe80::"));
    assert!(starts_with("anything", ""));
    assert!(same_text("Staged", "Staged"));
    assert!(!same_text("Staged", "staged"));
    assert!(!same_text("Staged", "Stage"));
}

#[test]
fn chars_of_keeps_unicode_characters() {
    assert_eq!(chars_of("aé中"), vec!['a', 'é', '中']);
}

#[test]
fn replace_matches_str_replace() {
    let cases = [
        ("http://h/{vendor}-{model}.zip", "{vendor}", "Dell"),
        ("aaaa", "aa", "b"),
        ("abcabc", "c", "xyz"),
        ("no placeholder", "{x}", "y"),
        ("{a}{a}{a", "{a}", ""),
        ("ééé", "é", "e"),
    ];
    for (s, p, r) in cases {
        assert_eq!(replace(s, p, r), s.replace(p, r));
    }
}
