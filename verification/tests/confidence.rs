use aicms::confidence::Confidence;

fn micros(text: &str) -> Option<i64> {
    Confidence::parse(text).map(|c| c.micros)
}

#[test]
fn numerals_are_read_exactly() {
    assert_eq!(micros("0.85"), Some(850_000));
    assert_eq!(micros("1"), Some(1_000_000));
    assert_eq!(micros("1."), Some(1_000_000));
    assert_eq!(micros(".5"), Some(500_000));
    assert_eq!(micros("0"), Some(0));
    assert_eq!(micros("007.250"), Some(7_250_000));
    assert_eq!(micros("+0.1"), Some(100_000));
    assert_eq!(micros("-0.1"), Some(-100_000));
    assert_eq!(micros("0.000001"), Some(1));
    assert_eq!(micros("0.1234567"), Some(123_456));
    assert_eq!(micros("0.9999999"), Some(999_999));
    assert_eq!(micros("12.5"), Some(12_500_000));
}

#[test]
fn other_texts_are_no_numerals() {
    for text in ["", ".", "+", "-", "high", "0.5x", "1e-1", "0,5", " 0.5", "0.5 ", "1.2.3", "--1", "inf", "NaN"] {
        assert_eq!(micros(text), None, "{:?}", text);
    }
}

#[test]
fn large_whole_parts_are_capped() {
    assert_eq!(micros("1000000000000"), Some(1_000_000_000_000_000_000));
    assert_eq!(micros("1000000000001.5"), Some(1_000_000_000_000_500_000));
    assert_eq!(
        micros("99999999999999999999999999999999"),
        Some(1_000_000_000_000_000_000)
    );
    assert_eq!(micros("-99999999999999999999"), Some(-1_000_000_000_000_000_000));
}

#[test]
fn two_decimal_text() {
    let text = |m: i64| Confidence { micros: m }.to_text();
    assert_eq!(text(850_000), "0.85");
    assert_eq!(text(0), "0.00");
    assert_eq!(text(1_000_000), "1.00");
    assert_eq!(text(700_000), "0.70");
    assert_eq!(text(994_999), "0.99");
    assert_eq!(text(995_000), "1.00");
    assert_eq!(text(5_000), "0.01");
    assert_eq!(text(4_999), "0.00");
    assert_eq!(text(-250_000), "-0.25");
    assert_eq!(text(-1), "-0.00");
    assert_eq!(text(123_456_789), "123.46");
    assert_eq!(text(i64::MAX), "9223372036854.78");
    assert_eq!(text(i64::MIN), "-9223372036854.78");
}

#[test]
fn comparison_of_values() {
    let c = |m: i64| Confidence { micros: m };
    assert!(c(1).below(&c(2)));
    assert!(!c(2).below(&c(2)));
    assert!(!c(3).below(&c(2)));
    assert!(c(900_000).differs_significantly(&c(800_000)));
    assert!(c(800_000).differs_significantly(&c(900_000)));
    assert!(!c(900_000).differs_significantly(&c(801_000)));
    assert!(!c(900_000).differs_significantly(&c(900_000)));
    assert!(!c(0).differs_significantly(&c(99_999)));
    assert!(c(i64::MIN).differs_significantly(&c(i64::MAX)));
    assert!(c(i64::MAX).differs_significantly(&c(i64::MIN)));
}
