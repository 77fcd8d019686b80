use aicms::pattern::{captures, captures_all, group, group_text};

#[test]
fn leftmost_match_and_its_groups() {
    let groups = captures(r"(a+)(b)?", "xxaab aab").unwrap();
    assert_eq!(groups, vec![Some("aab".to_string()), Some("aa".to_string()), Some("b".to_string())]);
    let groups = captures(r"(a+)(b)?", "xa").unwrap();
    assert_eq!(groups, vec![Some("a".to_string()), Some("a".to_string()), None]);
    assert_eq!(captures(r"(a+)(b)?", "xyz"), None);
    assert_eq!(group(&groups, 1), Some(&"a".to_string()));
    assert_eq!(group(&groups, 2), None);
    assert_eq!(group(&groups, 3), None);
    assert_eq!(group_text(&groups, 0), "a");
    assert_eq!(group_text(&groups, 2), "");
    assert_eq!(group_text(&groups, 9), "");
}

#[test]
fn every_match_in_order() {
    let found = captures_all(r"(\d)(\d)?", "a1b22c");
    assert_eq!(
        found,
        vec![
            vec![Some("1".to_string()), Some("1".to_string()), None],
            vec![Some("22".to_string()), Some("2".to_string()), Some("2".to_string())],
        ]
    );
    assert!(captures_all(r"\d", "none").is_empty());
}

#[test]
fn text_that_is_no_pattern_matches_nothing() {
    assert_eq!(captures("(", "("), None);
    assert!(captures_all("[", "[").is_empty());
}
