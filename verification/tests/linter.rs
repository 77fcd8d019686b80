use aicms::annotation::{FunctionAnnotations, Location, ModuleAnnotations, ParsedFile};
use aicms::confidence::Confidence;
use aicms::error::Error;
use aicms::linter::{lint_file, lint_parsed_file, LintConfig, LintIssue, LintResult, Severity};

#[test]
fn test_lint_missing_intent() {
    let content = "fn no_annotation() {\n    println!(\"hello\");\n}\n";

    let config = LintConfig {
        require_intent: true,
        ..Default::default()
    };

    let result = lint_file("sample.rs", content, &config).unwrap();

    assert_eq!(result.errors, 1);
    assert_eq!(result.issues[0].code, "E001");
    assert_eq!(
        result.issues[0].message,
        "Function `no_annotation` missing @ai:intent annotation"
    );
    assert_eq!(
        result.issues[0].suggestion,
        Some("Add /// @ai:intent <description> before `no_annotation`".to_string())
    );
    assert_eq!(result.issues[0].severity, Severity::Error);
    assert_eq!(result.issues[0].location, Location::new("sample.rs".to_string(), 1));
    assert_eq!(result.files_checked, 1);
    assert_eq!(result.functions_checked, 1);
    assert!(!result.passed());
}

#[test]
fn test_lint_with_intent() {
    let content = "/// @ai:intent Print hello\nfn with_annotation() {\n    println!(\"hello\");\n}\n";

    let config = LintConfig {
        require_intent: true,
        ..Default::default()
    };

    let result = lint_file("sample.rs", content, &config).unwrap();

    assert_eq!(result.errors, 0);
    assert!(result.passed());
    assert!(result.issues.is_empty());
}

fn file_with(functions: Vec<FunctionAnnotations>) -> ParsedFile {
    let mut module = ModuleAnnotations::new("lib.rs".to_string());
    module.functions = functions;
    ParsedFile {
        path: "lib.rs".to_string(),
        language: "rust".to_string(),
        module,
        raw_annotations: vec![],
    }
}

#[test]
fn strict_rules_report_in_order() {
    let mut f = FunctionAnnotations::new("f".to_string(), Location::new("lib.rs".to_string(), 4));
    f.confidence = Some(Confidence { micros: 500_000 });
    f.needs_review = Some("units".to_string());
    f.test_integration = Some("db".to_string());
    let mut g = FunctionAnnotations::new("g".to_string(), Location::new("lib.rs".to_string(), 9));
    g.intent = Some("Fine".to_string());
    g.confidence = Some(Confidence { micros: 700_000 });
    let result = lint_parsed_file(&file_with(vec![f, g]), &LintConfig::strict());
    let codes: Vec<&str> = result.issues.iter().map(|i| i.code.as_str()).collect();
    assert_eq!(codes, vec!["W001", "E001", "W002", "I001", "I002"]);
    assert_eq!(result.errors, 1);
    assert_eq!(result.warnings, 2);
    assert_eq!(result.files_checked, 1);
    assert_eq!(result.functions_checked, 2);
    assert_eq!(result.issues[0].message, "Module missing @ai:module:intent annotation");
    assert_eq!(result.issues[0].location, Location::new("lib.rs".to_string(), 1));
    assert_eq!(
        result.issues[0].suggestion,
        Some("Add //! @ai:module:intent <description>".to_string())
    );
    assert_eq!(result.issues[2].message, "Function `f` has low confidence (0.50 < 0.70)");
    assert_eq!(result.issues[2].severity, Severity::Warning);
    assert_eq!(
        result.issues[2].suggestion,
        Some("Consider reviewing and improving confidence".to_string())
    );
    assert_eq!(result.issues[3].message, "Function `f` flagged for review: units");
    assert_eq!(result.issues[3].severity, Severity::Info);
    assert_eq!(result.issues[4].message, "Function `f` requires integration test: db");
    assert_eq!(result.issues[4].location.line, 4);
}

#[test]
fn default_rules_report_notes_only() {
    let mut f = FunctionAnnotations::new("f".to_string(), Location::default());
    f.confidence = Some(Confidence { micros: 0 });
    f.needs_review = Some("x".to_string());
    let result = lint_parsed_file(&file_with(vec![f]), &LintConfig::default());
    assert_eq!(result.issues.len(), 1);
    assert_eq!(result.issues[0].code, "I001");
    assert_eq!(result.errors, 0);
    assert_eq!(result.warnings, 0);
    assert!(result.passed());
    assert_eq!(Severity::default(), Severity::Warning);
    let strict = LintConfig::strict();
    assert_eq!(strict.confidence_threshold, Confidence { micros: 700_000 });
    assert!(strict.require_effects_for_impure);
}

fn issue(severity: Severity, code: &str) -> LintIssue {
    LintIssue {
        severity,
        code: code.to_string(),
        message: String::new(),
        location: Location::default(),
        suggestion: None,
    }
}

#[test]
fn merge_adds_counts_and_appends_issues() {
    let mut a = LintResult::default();
    a.files_checked = 2;
    a.functions_checked = 5;
    a.add_issue(issue(Severity::Error, "E001"));
    a.add_issue(issue(Severity::Info, "I001"));
    let mut b = LintResult::new();
    b.files_checked = 1;
    b.functions_checked = 3;
    b.add_issue(issue(Severity::Warning, "W002"));
    b.add_issue(issue(Severity::Error, "E001"));
    a.merge(b);
    assert_eq!(a.files_checked, 3);
    assert_eq!(a.functions_checked, 8);
    assert_eq!(a.errors, 2);
    assert_eq!(a.warnings, 1);
    let codes: Vec<&str> = a.issues.iter().map(|i| i.code.as_str()).collect();
    assert_eq!(codes, vec!["E001", "I001", "W002", "E001"]);
    assert!(!a.passed());
}

#[test]
fn failed_file_is_reported_as_error() {
    let mut result = LintResult::default();
    let error = Error::FileRead { path: "gone.rs".to_string(), source: "not found".to_string() };
    result.report_failure("gone.rs", &error);
    assert_eq!(result.errors, 1);
    assert_eq!(result.issues[0].code, "E000");
    assert_eq!(
        result.issues[0].message,
        "Failed to parse file: Failed to read file gone.rs: not found"
    );
    assert_eq!(result.issues[0].location, Location::new("gone.rs".to_string(), 0));
    assert!(lint_file("x.unknown", "", &LintConfig::default()).is_err());
}

#[test]
fn error_messages() {
    assert_eq!(Error::Io("disk".to_string()).message(), "IO error: disk");
    assert_eq!(
        Error::Parse { file: "a.rs".to_string(), line: 120, message: "bad".to_string() }.message(),
        "Parse error at a.rs:120: bad"
    );
    assert_eq!(
        Error::InvalidAnnotation("x".to_string()).message(),
        "Invalid annotation format: x"
    );
    assert_eq!(Error::Json("eof".to_string()).message(), "JSON serialization error: eof");
    assert_eq!(
        Error::UnsupportedFileType("txt".to_string()).message(),
        "Unsupported file type: txt"
    );
}
