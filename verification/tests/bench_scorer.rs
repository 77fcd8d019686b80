use aicms::bench::scorer::{
    default_comparison_prompt, extract_json, ClaudeScorer, ClaudeScorerTrait, JsonError,
    MockClaudeScorer,
};

#[test]
fn test_extract_json_simple() {
    let response = r#"{"score": 85}"#;
    let result = extract_json(response).unwrap();
    assert_eq!(result, r#"{"score": 85}"#);
}

#[test]
fn test_extract_json_with_prefix() {
    let response = r#"Here's the score: {"score": 85} end"#;
    let result = extract_json(response).unwrap();
    assert_eq!(result, r#"{"score": 85}"#);
}

#[test]
fn test_build_prompt_contains_paths() {
    let scorer = ClaudeScorer::default();
    let prompt = scorer.build_prompt("spec", "/tmp/baseline", "/tmp/aicms");
    assert!(prompt.contains("/tmp/baseline"));
    assert!(prompt.contains("/tmp/aicms"));
    assert!(prompt.contains("spec"));
}

#[test]
fn test_mock_scorer() {
    let scorer = MockClaudeScorer::with_defaults();
    let result = scorer.compare_dirs("spec", "/tmp/baseline", "/tmp/aicms").unwrap();
    assert_eq!(result.winner, "aicms");
    assert!(result.aicms.overall > result.baseline.overall);
}

#[test]
fn json_errors() {
    assert_eq!(extract_json("no braces"), Err(JsonError::NoStart));
    assert_eq!(extract_json("} only end"), Err(JsonError::NoStart));
    assert_eq!(extract_json("{ never closed"), Err(JsonError::NoEnd));
    assert_eq!(extract_json("} before {"), Err(JsonError::Malformed));
    assert_eq!(extract_json("a {b} c {d} e").unwrap(), "{b} c {d}");
    assert_eq!(extract_json("{}").unwrap(), "{}");
    assert_eq!(JsonError::NoStart.message(), "No JSON object found in response");
    assert_eq!(JsonError::NoEnd.message(), "No JSON object end found in response");
    assert_eq!(JsonError::Malformed.message(), "Invalid JSON structure in response");
}

#[test]
fn prompt_template_is_filled_in() {
    let scorer = ClaudeScorer::new("T={{TASK_SPEC}} B={{BASELINE_DIR}} A={{AICMS_DIR}} T={{TASK_SPEC}}".to_string());
    assert_eq!(scorer.build_prompt("t", "b", "a"), "T=t B=b A=a T=t");
    let template = default_comparison_prompt();
    assert!(template.contains("{{TASK_SPEC}}"));
    assert!(template.contains("{{BASELINE_DIR}}"));
    assert!(template.contains("{{AICMS_DIR}}"));
    let filled = ClaudeScorer::default().build_prompt("x", "y", "z");
    assert!(!filled.contains("{{"));
}

#[test]
fn mock_scorer_details() {
    let scorer = MockClaudeScorer::with_defaults();
    let score = scorer.compare();
    assert_eq!(score.baseline.overall, 70);
    assert_eq!(score.baseline.edge_cases.score, 60);
    assert_eq!(score.baseline.code_quality.reason, "Mock baseline");
    assert_eq!(score.aicms.overall, 85);
    assert_eq!(score.aicms.intent_match.score, 90);
    assert_eq!(score.aicms.annotation_compliance.reason, "Mock AICMS");
    assert_eq!(score.summary, "Mock comparison");
    let again = MockClaudeScorer::new(score).compare();
    assert_eq!(again.winner, "aicms");
}
