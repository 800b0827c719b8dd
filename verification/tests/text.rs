use i2p_client::text::{chars_of, is_whitespace, lower_char, parse_unsigned, trimmed};
use i2p_client::LocalRouterDetector;

#[test]
fn unsigned_numbers_parse_as_str_parse_does() {
    assert_eq!(parse_unsigned("7656", 65535), Some(7656));
    assert_eq!(parse_unsigned("+42", 65535), Some(42));
    assert_eq!(parse_unsigned("0", 65535), Some(0));
    assert_eq!(parse_unsigned("65535", 65535), Some(65535));
    assert_eq!(parse_unsigned("65536", 65535), None);
    assert_eq!(parse_unsigned("18446744073709551615", u64::MAX), Some(u64::MAX));
    assert_eq!(parse_unsigned("18446744073709551616", u64::MAX), None);
    assert_eq!(parse_unsigned("99999999999999999999999", u64::MAX), None);
    for bad in ["", "+", "-", "-0", " 1", "1 ", "1_000", "١"] {
        assert_eq!(parse_unsigned(bad, u64::MAX), None, "{:?}", bad);
        assert_eq!(bad.parse::<u64>().ok(), None);
    }
    for good in ["1", "+1", "00012", "18446744073709551615"] {
        assert_eq!(parse_unsigned(good, u64::MAX), good.parse::<u64>().ok());
    }
}

#[test]
fn trimming_follows_str_trim() {
    for s in ["  a b ", "\u{a0}x\u{2028}", "", " \t\n", "\u{200b}y\u{200b}", "\u{85}z"] {
        assert_eq!(trimmed(s), s.trim(), "{:?}", s);
    }
}

#[test]
fn whitespace_is_unicode_white_space() {
    for c in ['\t', '\n', '\u{b}', '\u{c}', '\r', ' ', '\u{85}', '\u{a0}', '\u{1680}', '\u{2000}', '\u{200a}', '\u{2028}', '\u{2029}', '\u{202f}', '\u{205f}', '\u{3000}'] {
        assert!(is_whitespace(c), "{:?}", c);
        assert!(c.is_whitespace());
    }
    for c in ['a', '\u{200b}', '\u{180e}', '\u{feff}', '\u{0}'] {
        assert_eq!(is_whitespace(c), c.is_whitespace(), "{:?}", c);
    }
}

#[test]
fn lower_case_folds_ascii_only() {
    assert_eq!(lower_char('A'), 'a');
    assert_eq!(lower_char('Z'), 'z');
    assert_eq!(lower_char('É'), 'É');
    assert_eq!(lower_char('1'), '1');
    assert_eq!(chars_of("héllo"), vec!['h', 'é', 'l', 'l', 'o']);
}

#[test]
fn the_probe_address_is_host_colon_port() {
    let d = LocalRouterDetector { sam_port: 7699, timeout_ms: 300, ..Default::default() };
    assert_eq!(d.sam_tcp_addr(), "127.0.0.1:7699");
    let d = LocalRouterDetector { host: "router.lan".to_string(), sam_port: 0, timeout_ms: 1 };
    assert_eq!(d.sam_tcp_addr(), "router.lan:0");
    let d = LocalRouterDetector { host: String::new(), sam_port: 65535, timeout_ms: 1 };
    assert_eq!(d.sam_tcp_addr(), ":65535");
}
