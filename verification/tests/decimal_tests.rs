use libobs_wrapper::utils::decimal::{format_i64, format_u64, parse_u64};
use libobs_wrapper::utils::text::{chars_of, str_eq, string_from_chars};

fn parse(s: &str) -> Option<u64> {
    parse_u64(&s.chars().collect())
}

#[test]
fn parse_matches_std() {
    for s in ["0", "7", "42", "+42", "007", "", "+", "-1", "-", "1a", " 1", "18446744073709551615", "18446744073709551616", "99999999999999999999", "++1", "٣"] {
        assert_eq!(parse(s), s.parse::<u64>().ok(), "{}", s);
    }
}

#[test]
fn format_matches_std() {
    for n in [0u64, 1, 9, 10, 99, 100, 12345, u64::MAX] {
        assert_eq!(format_u64(n), n.to_string());
        assert_eq!(parse(&format_u64(n)), Some(n));
    }
    for n in [0i64, -1, 5, -10, i64::MIN, i64::MAX] {
        assert_eq!(format_i64(n), n.to_string());
    }
}

#[test]
fn text_helpers() {
    assert_eq!(chars_of("héllo"), vec!['h', 'é', 'l', 'l', 'o']);
    assert_eq!(string_from_chars(&vec!['a', 'ß']), "aß");
    assert!(str_eq("abc", "abc"));
    assert!(!str_eq("abc", "abd"));
    assert!(!str_eq("abc", "ab"));
    assert!(str_eq("", ""));
}
