use maker_dashboard::text::{concat2, concat3, last_segment, parse_u16, str_eq, trim, u16_to_text};

#[test]
fn trim_removes_surrounding_whitespace() {
    assert_eq!(trim("  maker-wallet \t\n"), "maker-wallet");
    assert_eq!(trim("\u{3000}x y\u{00a0}"), "x y");
    assert_eq!(trim("   "), "");
    assert_eq!(trim(""), "");
    assert_eq!(trim("inner  space"), "inner  space");
}

#[test]
fn str_eq_compares_characters() {
    assert!(str_eq("regtest", "regtest"));
    assert!(!str_eq("regtest", "regtes"));
    assert!(!str_eq("signet", "Signet"));
    assert!(str_eq("", ""));
    assert!(str_eq("ü", "ü"));
}

#[test]
fn last_segment_takes_text_after_last_separator() {
    assert_eq!(last_segment("127.0.0.1:38332", ':'), "38332");
    assert_eq!(last_segment("[::1]:18443", ':'), "18443");
    assert_eq!(last_segment("no-port", ':'), "no-port");
    assert_eq!(last_segment("host:", ':'), "");
    assert_eq!(last_segment("", ':'), "");
}

#[test]
fn parse_u16_matches_std_parse() {
    for s in ["0", "80", "+80", "0080", "65535", "65536", "-1", "-0", "+", "", "1a", " 1", "99999999", "٣"] {
        assert_eq!(parse_u16(s), s.parse::<u16>().ok(), "input {s:?}");
    }
    assert_eq!(parse_u16("38332"), Some(38332));
}

#[test]
fn u16_to_text_prints_decimal() {
    assert_eq!(u16_to_text(0), "0");
    assert_eq!(u16_to_text(7), "7");
    assert_eq!(u16_to_text(6102), "6102");
    assert_eq!(u16_to_text(65535), "65535");
    for v in [1u16, 9, 10, 99, 100, 1000, 10000, 40000] {
        assert_eq!(u16_to_text(v), v.to_string());
        assert_eq!(parse_u16(&u16_to_text(v)), Some(v));
    }
}

#[test]
fn concat_joins_in_order() {
    assert_eq!(concat2("ab", "cd"), "abcd");
    assert_eq!(concat3("Maker '", "m1", "' not found"), "Maker 'm1' not found");
}

