use aicms::bench::annotation_scorer::{
    calculate_completeness, intent_traits, score_intent_quality, AnnotationScorer,
};
use aicms::bench::code_extractor::ExtractedFile;
use aicms::bench::compiler::CompilationResult;
use aicms::bench::evaluator::{
    extract_function_name, name_from, strip_aicms_annotations, truncate_for_log, Evaluator,
};
use aicms::bench::harness::{
    build_filter, build_task_spec, check_extraction_failures, count_wins, ExtractionRecord,
    TaskComparison,
};
use aicms::bench::runner::{ExecutionResult, PromptMode};
use aicms::bench::scorer::MockClaudeScorer;
use aicms::bench::task::{Difficulty, Language, Task, TaskCategory};

#[test]
fn test_extract_function_name_rust() {
    let code = "fn factorial(n: u64) -> u64 { 1 }";
    assert_eq!(extract_function_name(code, Language::Rust), "factorial");
}

#[test]
fn test_extract_function_name_python() {
    let code = "def calculate_sum(a, b):\n    return a + b";
    assert_eq!(extract_function_name(code, Language::Python), "calculate_sum");
}

#[test]
fn function_name_defaults_to_unknown() {
    assert_eq!(extract_function_name("let x = 1;", Language::Rust), "unknown");
    assert_eq!(extract_function_name("export function run() {}", Language::TypeScript), "run");
    assert_eq!(name_from(&None), "unknown");
    assert_eq!(name_from(&Some(vec![Some("fn".to_string())])), "unknown");
    assert_eq!(name_from(&Some(vec![Some("fn a".to_string()), Some("a".to_string())])), "a");
}

#[test]
fn test_strip_aicms_annotations() {
    let code = r#"//! @ai:module:intent User service
//! @ai:module:layer application

/// @ai:intent Create a new user
/// @ai:pre request.email must be valid
/// @ai:effects db:write
pub fn create(request: Request) -> User {
    todo!()
}

// Regular comment stays
fn helper() {}
"#;

    let stripped = strip_aicms_annotations(code);

    // AICMS annotations should be removed
    assert!(!stripped.contains("@ai:intent"));
    assert!(!stripped.contains("@ai:module"));
    assert!(!stripped.contains("@ai:pre"));
    assert!(!stripped.contains("@ai:effects"));

    // Code and regular comments should remain
    assert!(stripped.contains("pub fn create"));
    assert!(stripped.contains("fn helper"));
    assert!(stripped.contains("Regular comment stays"));
}

#[test]
fn test_strip_annotations_python() {
    let code = r#"# @ai:module:intent User service
# @ai:intent Create user
# @ai:effects db:write
def create_user(request):
    pass

# Regular comment
def helper():
    pass
"#;

    let stripped = strip_aicms_annotations(code);

    assert!(!stripped.contains("@ai:intent"));
    assert!(stripped.contains("def create_user"));
    assert!(stripped.contains("Regular comment"));
    assert_eq!(
        stripped,
        "def create_user(request):\n    pass\n\n# Regular comment\ndef helper():\n    pass\n"
    );
    assert_eq!(strip_aicms_annotations("a\n\n\n\n\nb"), "a\n\nb");
}

#[test]
fn test_score_complete_annotations() {
    let scorer = AnnotationScorer::new();
    let code = r#"
/// @ai:intent Calculate the factorial of a number
/// @ai:pre n >= 0
/// @ai:post result >= 1
/// @ai:effects pure
/// @ai:example (5) -> 120
fn factorial(n: u64) -> u64 { 1 }
"#;

    let facts = scorer.facts(code, &vec![]);
    assert!(calculate_completeness(&facts) > 90);
    assert_eq!(calculate_completeness(&facts), 100);
    assert!(facts.has_intent);
    assert!(facts.has_example);
    assert_eq!(facts.example_count, 1);
    assert_eq!(facts.total_expected, 0);
    assert_eq!(score_intent_quality(&facts.intent.unwrap()), 100);
}

#[test]
fn test_score_minimal_annotations() {
    let scorer = AnnotationScorer::new();
    let code = "fn factorial(n: u64) -> u64 { 1 }";

    let facts = scorer.facts(code, &vec![]);
    assert!(calculate_completeness(&facts) < 10);
    assert_eq!(calculate_completeness(&facts), 0);
    assert!(facts.intent.is_none());
}

#[test]
fn test_score_intent_quality() {
    let good = score_intent_quality(&intent_traits("Calculate the factorial of a given number"));
    let bad = score_intent_quality(&intent_traits("do"));
    assert!(good > bad);
    assert_eq!(good, 100);
    assert_eq!(bad, 10);
    assert_eq!(score_intent_quality(&intent_traits("Returns the sum.")), 40);
    assert_eq!(score_intent_quality(&intent_traits("a b c d")), 40);
    assert_eq!(score_intent_quality(&intent_traits("")), 10);
}

#[test]
fn expected_annotations_are_matched_without_case() {
    let scorer = AnnotationScorer::new();
    let code = "/// @ai:intent Sum\n/// @ai:Pre X > 0\n/// @ai:example (1) -> 1\n/// @ai:example (2) -> 2\n";
    let expected = vec!["@AI:PRE x > 0".to_string(), "@ai:post".to_string(), "sum".to_string()];
    assert_eq!(scorer.count_matched(code, &expected), 2);
    assert_eq!(scorer.count_examples(code), 2);
    let facts = scorer.facts(code, &expected);
    assert_eq!(facts.matched_expected, 2);
    assert_eq!(facts.total_expected, 3);
    assert!(!facts.has_pre);
    assert!(!facts.has_post);
    assert_eq!(calculate_completeness(&facts), 55);
    assert!(scorer.check_intent("nothing").is_none());
}

fn task() -> Task {
    Task {
        id: "t1".to_string(),
        name: "Stack".to_string(),
        category: TaskCategory::Implement,
        language: Language::Rust,
        difficulty: Difficulty::Easy,
        description: "Write a stack".to_string(),
    }
}

fn execution(response: &str) -> ExecutionResult {
    ExecutionResult {
        task_id: "t1".to_string(),
        mode: PromptMode::Aicms,
        repetition: 2,
        response: response.to_string(),
        input_tokens: 1,
        output_tokens: 2,
        execution_time_ms: 3,
    }
}

#[test]
fn evaluation_in_two_steps() {
    let evaluator = Evaluator::new();
    let nothing = execution("I could not do it.");
    assert!(evaluator.extract(&task(), &nothing).is_empty());
    let empty = Evaluator::without_code(&task(), &nothing);
    assert_eq!(empty.task_id, "t1");
    assert_eq!(empty.mode, "aicms");
    assert_eq!(empty.repetition, 2);
    assert!(empty.lint.is_none());
    assert!(empty.extracted_code.is_none());

    let answer = execution("```rust:src/lib.rs\n/// @ai:intent Push a value\npub fn push() {}\n```\n```rust:src/main.rs\nfn main() {}\n```\n");
    let files = evaluator.extract(&task(), &answer);
    assert_eq!(files.len(), 2);
    assert_eq!(
        Evaluator::combined_code(&files),
        "// file: src/lib.rs\n/// @ai:intent Push a value\npub fn push() {}\n\n// file: src/main.rs\nfn main() {}"
    );
    let compilation = CompilationResult { success: true, errors: vec![], warnings: vec![] };
    let result = evaluator.conclude(&task(), &answer, files, Some(compilation), None);
    assert_eq!(result.mode, "aicms");
    assert!(result.compilation.unwrap().success);
    assert!(result.tests.is_none());
    let lint = result.lint.unwrap();
    assert_eq!(lint.annotation_count, 1);
    assert_eq!(lint.valid_annotation_count, 1);
    let facts = result.annotation_facts.unwrap();
    assert!(facts.has_intent);
    assert!(!facts.has_pre);
    assert_eq!(result.extracted_files.unwrap().len(), 2);
    assert!(result.extracted_code.unwrap().starts_with("// file: src/lib.rs\n"));
    assert_eq!(Evaluator::combined_code(&Vec::<ExtractedFile>::new()), "");
}

#[test]
fn log_text_is_one_line_and_short() {
    assert_eq!(truncate_for_log("a\nb", 10), "a\\nb");
    assert_eq!(truncate_for_log("a\nb\nc\nd", 4), "a\\nb\\n...");
    assert_eq!(truncate_for_log("abc", 3), "abc");
    assert_eq!(truncate_for_log("", 0), "");
}

#[test]
fn harness_rules() {
    assert_eq!(build_task_spec(&task()), "Task: Stack\n\nLanguage: rust\n\nDescription:\nWrite a stack");
    let filter = build_filter(Some("implement, bugfix".to_string()), None, Some("t1".to_string()));
    assert_eq!(filter.categories, Some(vec!["implement".to_string(), "bugfix".to_string()]));
    assert_eq!(filter.languages, None);
    assert_eq!(filter.task_ids, Some(vec!["t1".to_string()]));
    assert_eq!(filter.difficulties, None);
    assert!(filter.matches("bugfix", "go", "hard", "t1"));
    assert!(!filter.matches("bugfix", "go", "hard", "t2"));

    let record = |task_id: &str, mode: &str, code_extracted: bool| ExtractionRecord {
        task_id: task_id.to_string(),
        mode: mode.to_string(),
        code_extracted,
    };
    let records = vec![
        record("b", "aicms", false),
        record("a", "baseline", false),
        record("a", "baseline", false),
        record("c", "baseline", true),
        record("d", "other", false),
        record("e", "baseline", false),
    ];
    assert_eq!(
        check_extraction_failures(&records),
        vec![
            "Code extraction failed for a (baseline) - metrics show 0%",
            "Code extraction failed for e (baseline) - metrics show 0%",
            "Code extraction failed for b (aicms) - metrics show 0%",
        ]
    );
    assert!(check_extraction_failures(&vec![]).is_empty());

    let comparison = |winner: &str| {
        let mut score = MockClaudeScorer::with_defaults().compare();
        score.winner = winner.to_string();
        TaskComparison { task_id: "t".to_string(), comparison: score }
    };
    let counts = count_wins(&vec![
        comparison("aicms"),
        comparison("baseline"),
        comparison("tie"),
        comparison("aicms"),
        comparison("AICMS"),
    ]);
    assert_eq!((counts.aicms_wins, counts.baseline_wins, counts.ties), (2, 1, 2));
}
