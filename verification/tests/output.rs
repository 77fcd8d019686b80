use aicms::annotation::{FunctionAnnotations, Location, ModuleAnnotations, ParsedFile};
use aicms::confidence::Confidence;
use aicms::diff::{ChangeType, ContractChange, DiffResult};
use aicms::linter::{LintIssue, LintResult, Severity};
use aicms::output::{
    diff_exit_code, format_diff_result_text, format_lint_result_text, format_parsed_file_text,
    lint_exit_code, plain_text, OutputFormat, Span, Tone,
};

fn issue(severity: Severity, code: &str, message: &str, line: usize, hint: Option<&str>) -> LintIssue {
    LintIssue {
        severity,
        code: code.to_string(),
        message: message.to_string(),
        location: Location::new("src/a.rs".to_string(), line),
        suggestion: hint.map(|h| h.to_string()),
    }
}

#[test]
fn lint_report_text() {
    let mut result = LintResult::default();
    result.files_checked = 2;
    result.functions_checked = 7;
    result.add_issue(issue(Severity::Error, "E001", "Missing intent", 12, Some("Add it")));
    result.add_issue(issue(Severity::Warning, "W002", "Low confidence", 3, None));
    result.add_issue(issue(Severity::Info, "I001", "Review", 4, None));
    let spans = format_lint_result_text(&result);
    assert_eq!(
        plain_text(&spans),
        "ERROR src/a.rs:12 - Missing intent (E001)\n  hint: Add it\nWARN src/a.rs:3 - Low confidence (W002)\nINFO src/a.rs:4 - Review (I001)\n\nChecked 2 files, 7 functions\n1 errors, 1 warnings\n"
    );
    assert_eq!(spans[0], Span { text: "ERROR".to_string(), tone: Tone::RedBold });
    assert_eq!(spans[2], Span { text: "src/a.rs:12".to_string(), tone: Tone::Dimmed });
    assert_eq!(spans[4], Span { text: "E001".to_string(), tone: Tone::Dimmed });
    assert_eq!(spans[7], Span { text: "hint:".to_string(), tone: Tone::Cyan });
    assert_eq!(spans[9], Span { text: "WARN".to_string(), tone: Tone::YellowBold });
    assert_eq!(spans[15], Span { text: "INFO".to_string(), tone: Tone::Blue });
    assert_eq!(lint_exit_code(&result), 1);

    let mut warned = LintResult::default();
    warned.add_issue(issue(Severity::Warning, "W001", "m", 1, None));
    let spans = format_lint_result_text(&warned);
    assert!(plain_text(&spans).ends_with("\nChecked 0 files, 0 functions\nOK 1 warnings\n"));
    assert_eq!(lint_exit_code(&warned), 0);

    let clean = format_lint_result_text(&LintResult::default());
    assert_eq!(plain_text(&clean), "\nChecked 0 files, 0 functions\nOK No issues found\n");
    assert_eq!(clean[1], Span { text: "OK".to_string(), tone: Tone::GreenBold });
    assert_eq!(OutputFormat::default(), OutputFormat::Text);
}

fn change(kind: ChangeType, name: &str, old: Option<&str>, new: Option<&str>) -> ContractChange {
    ContractChange {
        function_name: name.to_string(),
        change_type: kind,
        tag: "@ai:pre".to_string(),
        description: "desc".to_string(),
        old_value: old.map(|s| s.to_string()),
        new_value: new.map(|s| s.to_string()),
    }
}

#[test]
fn diff_report_text() {
    let mut result = DiffResult::new("new.rs".to_string());
    result.add_change(change(ChangeType::NonBreaking, "a", Some("x"), None));
    result.add_change(change(ChangeType::Breaking, "b", None, Some("y")));
    result.add_change(change(ChangeType::Breaking, "c", Some("p"), Some("q")));
    let spans = format_diff_result_text(&result);
    assert_eq!(
        plain_text(&spans),
        "AICMS Semantic Diff: new.rs\n\n🔴 BREAKING CHANGES\n  b():\n    - @ai:pre desc\n      New: y\n\n  c():\n    - @ai:pre desc\n      Old: p\n      New: q\n\n🟢 NON-BREAKING CHANGES\n  a():\n    - @ai:pre desc ✓\n      Old: x\n\nSummary: 2 breaking, 0 notable, 1 non-breaking changes\n"
    );
    assert_eq!(spans[1], Span { text: "new.rs".to_string(), tone: Tone::Bold });
    assert_eq!(spans[3], Span { text: "🔴 BREAKING CHANGES".to_string(), tone: Tone::RedBold });
    assert!(spans.contains(&Span { text: "2".to_string(), tone: Tone::RedBold }));
    assert!(spans.contains(&Span { text: "0".to_string(), tone: Tone::Plain }));
    assert!(spans.contains(&Span { text: "✓".to_string(), tone: Tone::Green }));
    assert_eq!(diff_exit_code(&result, true), 1);
    assert_eq!(diff_exit_code(&result, false), 0);

    let mut notable = DiffResult::default();
    notable.add_change(change(ChangeType::Notable, "n", None, None));
    let text = plain_text(&format_diff_result_text(&notable));
    assert_eq!(
        text,
        "AICMS Semantic Diff: \n\n🟡 NOTABLE CHANGES\n  n():\n    - @ai:pre desc\n\nSummary: 0 breaking, 1 notable, 0 non-breaking changes\n"
    );
    assert_eq!(diff_exit_code(&notable, true), 0);
    let empty = plain_text(&format_diff_result_text(&DiffResult::default()));
    assert_eq!(empty, "AICMS Semantic Diff: \n\nSummary: 0 breaking, 0 notable, 0 non-breaking changes\n");
}

#[test]
fn parsed_file_report_text() {
    let mut f = FunctionAnnotations::new("add".to_string(), Location::new("m.rs".to_string(), 10));
    f.intent = Some("Add".to_string());
    f.effects = vec!["db:read".to_string(), "net".to_string()];
    f.confidence = Some(Confidence { micros: 850_000 });
    let g = FunctionAnnotations::new("bare".to_string(), Location::new("m.rs".to_string(), 20));
    let mut module = ModuleAnnotations::new("m.rs".to_string());
    module.intent = Some("Math".to_string());
    module.layer = Some("domain".to_string());
    module.functions = vec![f, g];
    let file = ParsedFile {
        path: "m.rs".to_string(),
        language: "rust".to_string(),
        module,
        raw_annotations: vec![],
    };
    let spans = format_parsed_file_text(&file);
    assert_eq!(
        plain_text(&spans),
        "m.rs (rust)\n  Module: Math\n  Layer: domain\n\n  Functions (2):\n    add (line 10)\n      intent: Add\n      effects: db:read, net\n      confidence: 0.85\n    bare (line 20)\n"
    );
    assert_eq!(spans[0], Span { text: "m.rs".to_string(), tone: Tone::Bold });
    assert!(spans.contains(&Span { text: "add".to_string(), tone: Tone::Cyan }));
    let empty = ParsedFile {
        path: "e.py".to_string(),
        language: "python".to_string(),
        module: ModuleAnnotations::default(),
        raw_annotations: vec![],
    };
    assert_eq!(plain_text(&format_parsed_file_text(&empty)), "e.py (python)\n\n  Functions (0):\n");
}
