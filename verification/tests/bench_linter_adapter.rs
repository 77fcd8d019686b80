use aicms::bench::linter_adapter::{LinterAdapter, LinterAdapterTrait, Severity};

#[test]
fn test_lint_valid_annotations() {
    let linter = LinterAdapter::new();
    let code = r#"
/// @ai:intent Calculate factorial
/// @ai:pre n >= 0
/// @ai:effects pure
fn factorial(n: u64) -> u64 { 1 }
"#;

    let result = linter.lint(code);
    assert_eq!(result.annotation_count, 3);
    assert_eq!(result.valid_annotation_count, 3);
    assert!(result.issues.is_empty());
}

#[test]
fn test_lint_invalid_tag() {
    let linter = LinterAdapter::new();
    let code = "/// @ai:invalid_tag something";

    let result = linter.lint(code);
    assert_eq!(result.issues.len(), 2); // invalid tag + missing intent
    assert!(result.issues[0].message.contains("Unknown annotation"));
    assert_eq!(result.issues[0].message, "Unknown annotation tag: @ai:invalid_tag");
    assert_eq!(result.issues[0].severity, Severity::Error);
    assert_eq!(result.issues[0].line, Some(1));
    assert_eq!(
        result.issues[1].message,
        "Missing @ai:intent annotation (required for all functions)"
    );
    assert_eq!(result.issues[1].severity, Severity::Warning);
    assert_eq!(result.issues[1].line, None);
    assert_eq!(result.annotation_count, 1);
    assert_eq!(result.valid_annotation_count, 0);
}

#[test]
fn test_lint_invalid_confidence() {
    let linter = LinterAdapter::new();
    let code = r#"
/// @ai:intent Test
/// @ai:confidence 1.5
"#;

    let result = linter.lint(code);
    assert!(result.issues.iter().any(|i| i.message.contains("0.0 and 1.0")));
    assert_eq!(result.issues.len(), 1);
    assert_eq!(result.issues[0].line, Some(3));
    assert_eq!(result.annotation_count, 2);
    assert_eq!(result.valid_annotation_count, 1);
}

#[test]
fn tags_and_values_are_checked() {
    let linter = LinterAdapter::new();
    assert!(linter.is_valid_tag("intent"));
    assert!(linter.is_valid_tag("module:stability"));
    assert!(linter.is_valid_tag("project:no_panic"));
    assert!(linter.is_valid_tag("override:anything"));
    assert!(linter.is_valid_tag("override"));
    assert!(!linter.is_valid_tag("Intent"));
    assert!(!linter.is_valid_tag("test:unit"));
    assert!(!linter.is_valid_tag(""));
    assert!(linter.validate_effects("pure").is_none());
    assert!(linter.validate_effects("db:read, db:write ,time").is_none());
    let issue = linter.validate_effects("io, disk, gpu").unwrap();
    assert_eq!(issue.message, "Unknown effect: disk");
    assert_eq!(issue.severity, Severity::Warning);
    assert_eq!(linter.validate_effects("").unwrap().message, "Unknown effect: ");
    assert!(linter.validate_confidence("0").is_none());
    assert!(linter.validate_confidence("1.0").is_none());
    assert!(linter.validate_confidence("0.85").is_none());
    assert_eq!(
        linter.validate_confidence("1.000001").unwrap().message,
        "Confidence must be between 0.0 and 1.0, got 1.000001"
    );
    assert_eq!(
        linter.validate_confidence("-0.1").unwrap().message,
        "Confidence must be between 0.0 and 1.0, got -0.1"
    );
    let issue = linter.validate_confidence("high").unwrap();
    assert_eq!(issue.message, "Invalid confidence value: high");
    assert_eq!(issue.severity, Severity::Error);
    assert!(linter.check_annotation("pre", "").is_none());
    assert_eq!(
        linter.check_annotation("module:intent", "").unwrap().message,
        "Intent annotation must have a value"
    );
    assert_eq!(LinterAdapter::valid_tags().len(), 58);
    assert_eq!(LinterAdapter::valid_effects().len(), 12);
}

#[test]
fn lint_counts_every_annotation() {
    let linter = LinterAdapter::new();
    let code = "// @ai:intent\n// @ai:effects magic\n// @ai:pre a @ai:post b\nplain\n// @ai:module:intent Top\n";
    let result = linter.lint_code(code);
    assert_eq!(result.annotation_count, 4);
    assert_eq!(result.valid_annotation_count, 2);
    let found: Vec<(Option<u32>, &str)> =
        result.issues.iter().map(|i| (i.line, i.message.as_str())).collect();
    assert_eq!(
        found,
        vec![
            (Some(1), "Intent annotation must have a value"),
            (Some(2), "Unknown effect: magic"),
        ]
    );
    let empty = linter.lint_code("fn main() {}\n");
    assert_eq!(empty.annotation_count, 0);
    assert!(empty.issues.is_empty());
}
