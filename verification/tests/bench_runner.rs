use aicms::bench::config::RunConfig;
use aicms::bench::runner::{
    build_prompt, detect_language, truncate_string, try_truncate_string, BenchmarkExecutor,
    ClaudeCodeClient, MockClaudeClient, PromptMode, PromptTemplates,
};
use aicms::bench::task::{Difficulty, Language, Task, TaskCategory};

#[test]
fn test_client_creation() {
    let client = ClaudeCodeClient::new("/tmp/out".to_string());
    assert!(client.model.is_none());

    let client = ClaudeCodeClient::with_model("sonnet".to_string(), "/tmp/out2".to_string());
    assert_eq!(client.model, Some("sonnet".to_string()));
    assert_eq!(client.output_dir, "/tmp/out2");
    assert_eq!(client.skill_file, "../skills/aicms/SKILL.md");
    let client = client.with_skill_file("skill.md".to_string());
    assert_eq!(client.skill_file, "skill.md");
    assert_eq!(client.model, Some("sonnet".to_string()));
}

#[test]
fn test_format_files_as_markdown() {
    let client = ClaudeCodeClient::new("/tmp/out".to_string());
    let files = vec![
        ("src/lib.rs".to_string(), "pub mod user;".to_string()),
        ("src/user.rs".to_string(), "pub struct User {}".to_string()),
    ];

    let markdown = client.format_files_as_markdown(&files, "rust");

    assert!(markdown.contains("```rust:src/lib.rs"));
    assert!(markdown.contains("pub mod user;"));
    assert!(markdown.contains("```rust:src/user.rs"));
    assert!(markdown.contains("pub struct User {}"));
    assert_eq!(
        markdown,
        "```rust:src/lib.rs\npub mod user;\n```\n\n```rust:src/user.rs\npub struct User {}\n```"
    );
    assert_eq!(client.format_files_as_markdown(&vec![], "rust"), "");
}

#[test]
fn test_detect_language() {
    assert_eq!(detect_language("Write a Rust function"), "rust");
    assert_eq!(detect_language("Write a rust function"), "rust");
    assert_eq!(detect_language("Write a Python function"), "python");
    assert_eq!(detect_language("Write a python function"), "python");
    assert_eq!(detect_language("Write a TypeScript function"), "typescript");
    assert_eq!(detect_language("Write a typescript function"), "typescript");
    assert_eq!(detect_language("Write a function"), "rust"); // default
}

#[test]
fn test_truncate_string() {
    assert_eq!(truncate_string("short", 10), "short");
    assert_eq!(truncate_string("this is a long string", 10), "this is a ...");
}

#[test]
fn truncation_counts_bytes() {
    assert_eq!(truncate_string("héllo", 3), "hé...");
    assert_eq!(truncate_string("héllo", 6), "héllo");
    assert_eq!(truncate_string("", 0), "");
    assert_eq!(truncate_string("abc", 0), "...");
    assert_eq!(try_truncate_string("héllo", 2), None);
    assert_eq!(try_truncate_string("héllo", 3), Some("hé...".to_string()));
    assert_eq!(try_truncate_string("héllo", 9), Some("héllo".to_string()));
}

#[test]
fn test_directory_paths() {
    let client = ClaudeCodeClient::new("/tmp/results/run1".to_string());

    let code_dir = client.get_code_dir("baseline");
    assert!(std::path::Path::new(&code_dir).ends_with("baseline/code"));

    let report_dir = client.get_report_dir("aicms");
    assert!(std::path::Path::new(&report_dir).ends_with("aicms/report"));
    assert!(std::path::Path::new(&report_dir).starts_with("/tmp/results/run1"));
}

#[test]
fn test_build_prompt_same_for_both_modes() {
    let prompt = "## Task: Test\n\nDescription";
    let result = build_prompt(prompt);

    // Should contain the prompt
    assert!(result.contains("## Task: Test"));
    assert!(result.contains("Description"));
    // Should contain instructions
    assert!(result.contains("Write all files to the current directory"));
    assert!(result.starts_with("## Task: Test\n\nDescription\n\n---\n\nWrite all files"));
    assert!(result.ends_with("Run the tests to verify they pass."));
}

fn create_test_task() -> Task {
    Task {
        id: "test-task".to_string(),
        name: "Test Task".to_string(),
        category: TaskCategory::Implement,
        language: Language::Rust,
        difficulty: Difficulty::Easy,
        description: "Implement a test function".to_string(),
    }
}

fn executor(repetitions: u32) -> BenchmarkExecutor {
    let mut run_config = RunConfig::default();
    run_config.repetitions = repetitions;
    run_config.dry_run = true;
    BenchmarkExecutor::new(
        PromptTemplates { baseline: "Test baseline".to_string(), aicms_skill: "Test skill".to_string() },
        run_config,
    )
}

#[test]
fn executor_plans_each_repetition_in_both_modes() {
    assert_eq!(
        executor(2).plan(),
        vec![
            (0, PromptMode::Baseline),
            (0, PromptMode::Aicms),
            (1, PromptMode::Baseline),
            (1, PromptMode::Aicms),
        ]
    );
    assert!(executor(0).plan().is_empty());
    assert_eq!(PromptMode::Baseline.as_str(), "baseline");
    assert_eq!(PromptMode::Aicms.as_str(), "aicms");
}

#[test]
fn executor_words_prompt_and_context() {
    let exec = executor(1);
    let task = create_test_task();
    assert_eq!(
        exec.build_prompt(&task),
        "## Task: Test Task\n\n**Language:** rust\n\nImplement a test function\n\nPlease provide a complete implementation with all necessary types, traits, and functions. Use proper error handling and include appropriate documentation."
    );
    let context = exec.create_task_context(&task, PromptMode::Aicms);
    assert_eq!(context.task_id, "test-task");
    assert_eq!(context.mode, "aicms");
    assert!(context.use_aicms_skill);
    let context = exec.create_task_context(&task, PromptMode::Baseline);
    assert_eq!(context.mode, "baseline");
    assert!(!context.use_aicms_skill);
    let dry = BenchmarkExecutor::dry_run_result(&task, PromptMode::Baseline, 3);
    assert_eq!(dry.response, "[DRY RUN] No actual API call made");
    assert_eq!((dry.input_tokens, dry.output_tokens, dry.execution_time_ms), (0, 0, 0));
    assert_eq!(dry.repetition, 3);
    let reply = MockClaudeClient::new("Test response".to_string()).reply();
    assert_eq!(reply.content, "Test response");
    assert_eq!((reply.input_tokens, reply.output_tokens), (100, 200));
    assert_eq!(reply.stop_reason, "end_turn");
    let done = BenchmarkExecutor::completed(&task, PromptMode::Aicms, 1, reply, 42);
    assert_eq!(done.response, "Test response");
    assert_eq!((done.input_tokens, done.output_tokens, done.execution_time_ms), (100, 200, 42));
    assert_eq!(done.mode, PromptMode::Aicms);
}

#[test]
fn test_mock_client() {
    let client = MockClaudeClient::new("fn factorial(n: u64) -> u64 { 1 }".to_string());
    let response = client.reply();
    assert!(response.content.contains("factorial"));
}

#[test]
fn test_dry_run_execution() {
    let templates = PromptTemplates {
        baseline: "You are a coding assistant.".to_string(),
        aicms_skill: "skill".to_string(),
    };
    let run_config = RunConfig { repetitions: 1, dry_run: true, ..Default::default() };

    let executor = BenchmarkExecutor::new(templates, run_config);
    let task = create_test_task();

    let results: Vec<_> = executor
        .plan()
        .into_iter()
        .map(|(rep, mode)| BenchmarkExecutor::dry_run_result(&task, mode, rep))
        .collect();
    assert_eq!(results.len(), 2);
    assert!(results[0].response.contains("DRY RUN"));
}
