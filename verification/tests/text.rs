use aicms::numeral::{parse_u32, parse_u32_or_zero};
use aicms::text::{
    contains, decimal_string, ends_with, equals, join, lines, replace, split, split_whitespace,
    starts_with, to_chars, trim, trim_start,
};

#[test]
fn trimming_matches_std() {
    for s in ["", " ", "a", "  a b  ", "\t\n x \r\n", "\u{a0}x\u{2003}", "x\u{3000}", "no-space", " \u{feff}x "] {
        assert_eq!(trim(s), s.trim(), "{:?}", s);
        assert_eq!(trim_start(s), s.trim_start(), "{:?}", s);
    }
}

#[test]
fn lines_match_std() {
    for s in ["", "\n", "a", "a\n", "a\nb", "a\r\nb\r\n", "a\rb\n", "a\r", "\r\n", "\n\n", "a\n\nb\n", "é\nü"] {
        let expected: Vec<String> = s.lines().map(|l| l.to_string()).collect();
        assert_eq!(lines(s), expected, "{:?}", s);
    }
}

#[test]
fn split_matches_std() {
    for s in ["", "a", "a,b", ",", "a,", ",a", "a,,b", "α,β"] {
        let expected: Vec<String> = s.split(',').map(|l| l.to_string()).collect();
        assert_eq!(split(s, ','), expected, "{:?}", s);
    }
}

#[test]
fn words_match_std() {
    for s in ["", "  ", "a", " a  b\tc\n", "test result: ok. 3 passed;", "x\u{a0}y"] {
        let expected: Vec<String> = s.split_whitespace().map(|l| l.to_string()).collect();
        assert_eq!(split_whitespace(s), expected, "{:?}", s);
    }
}

#[test]
fn replace_matches_std() {
    let cases = [
        ("", "a", "b"),
        ("aaa", "a", "b"),
        ("aaa", "aa", "b"),
        ("abcabc", "bc", ""),
        ("x{{A}}y{{A}}", "{{A}}", "1"),
        ("abc", "", "-"),
        ("", "", "-"),
        ("line\nline", "\n", "\\n"),
        ("abab", "abc", "z"),
    ];
    for (s, from, to) in cases {
        assert_eq!(replace(s, from, to), s.replace(from, to), "{:?}", (s, from, to));
    }
}

#[test]
fn searching_matches_std() {
    let cases = [("", ""), ("abc", ""), ("abc", "abc"), ("abc", "bc"), ("abc", "abcd"), ("aab", "ab"), ("@ai:x", "@ai:")];
    for (s, p) in cases {
        assert_eq!(contains(s, p), s.contains(p), "{:?}", (s, p));
        assert_eq!(starts_with(s, p), s.starts_with(p), "{:?}", (s, p));
        assert_eq!(ends_with(s, p), s.ends_with(p), "{:?}", (s, p));
        assert_eq!(equals(s, p), s == p, "{:?}", (s, p));
    }
}

#[test]
fn join_and_decimal() {
    assert_eq!(join(&vec![], ", "), "");
    assert_eq!(join(&vec!["a".to_string()], ", "), "a");
    assert_eq!(join(&vec!["a".to_string(), "b".to_string(), "".to_string()], ", "), "a, b, ");
    assert_eq!(decimal_string(0), "0");
    assert_eq!(decimal_string(7), "7");
    assert_eq!(decimal_string(10), "10");
    assert_eq!(decimal_string(1234567890), "1234567890");
    assert_eq!(decimal_string(u64::MAX), u64::MAX.to_string());
    assert_eq!(to_chars("aé"), vec!['a', 'é']);
}

#[test]
fn unsigned_numerals_match_std() {
    for s in ["0", "7", "+7", "007", "4294967295", "4294967296", "99999999999999999999", "", "+", "-1", "1a", " 1", "1 ", "١"] {
        assert_eq!(parse_u32(s), s.parse::<u32>().ok(), "{:?}", s);
        assert_eq!(parse_u32_or_zero(s), s.parse::<u32>().unwrap_or(0), "{:?}", s);
    }
}
