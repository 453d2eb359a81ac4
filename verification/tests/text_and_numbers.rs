use wsl_dashboard::number::{i64_text, parse_i64_str, parse_u16_str, u64_text};
use wsl_dashboard::text::{split_lines, split_whitespace, str_contains, trim_str};

fn words_of(s: &str) -> Vec<String> {
    split_whitespace(&s.chars().collect()).into_iter().map(|w| w.into_iter().collect()).collect()
}

fn lines_of(s: &str) -> Vec<String> {
    split_lines(&s.chars().collect()).into_iter().map(|w| w.into_iter().collect()).collect()
}

#[test]
fn trim_removes_unicode_white_space() {
    assert_eq!(trim_str("  \t hello world \r\n"), "hello world");
    assert_eq!(trim_str("\u{3000}x\u{a0}"), "x");
    assert_eq!(trim_str("   "), "");
    assert_eq!(trim_str(""), "");
}

#[test]
fn split_whitespace_matches_std() {
    for s in ["", "  ", "a", " a  b\tc \n", "172.20.1.2 10.0.0.5", "x\u{2003}y"] {
        let expected: Vec<String> = s.split_whitespace().map(|w| w.to_string()).collect();
        assert_eq!(words_of(s), expected);
    }
}

#[test]
fn lines_match_std() {
    for s in ["", "\n", "a", "a\n", "a\r\nb", "a\n\nb\n", "a\r", "\r\n", "x\n\r"] {
        let expected: Vec<String> = s.lines().map(|l| l.to_string()).collect();
        assert_eq!(lines_of(s), expected, "input {:?}", s);
    }
}

#[test]
fn contains_finds_infix() {
    assert!(str_contains("Access is denied.", "denied"));
    assert!(str_contains("abc", ""));
    assert!(!str_contains("ab", "abc"));
    assert!(!str_contains("InvalidOp", "InvalidOperation"));
}

#[test]
fn decimal_text_of_numbers() {
    assert_eq!(u64_text(0), "0");
    assert_eq!(u64_text(8080), "8080");
    assert_eq!(u64_text(u64::MAX), u64::MAX.to_string());
    assert_eq!(i64_text(-42), "-42");
    assert_eq!(i64_text(i64::MIN), i64::MIN.to_string());
}

#[test]
fn parse_u16_like_std() {
    for s in ["", "+", "-", "0", "+80", "-5", "65535", "65536", "0080", " 1", "12a", "99999999999"] {
        assert_eq!(parse_u16_str(s), s.parse::<u16>().ok(), "input {:?}", s);
    }
}

#[test]
fn parse_i64_like_std() {
    for s in ["", "-", "+", "-0", "1700000000000", "-9223372036854775808", "9223372036854775807",
              "9223372036854775808", "-9223372036854775809", "12x"] {
        assert_eq!(parse_i64_str(s), s.parse::<i64>().ok(), "input {:?}", s);
    }
}

#[test]
fn port_text_round_trip() {
    for p in [0u16, 1, 80, 8080, 65535] {
        assert_eq!(parse_u16_str(&u64_text(p as u64)), Some(p));
    }
}
