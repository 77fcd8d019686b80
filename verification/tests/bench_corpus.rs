use aicms::bench::compiler::{
    check_tsconfig, default_manifest, has_cargo_manifest, is_cargo_manifest,
    is_python_project_directory, python_check_result, python_directory_error, python_file_error,
    python_files_result, rust_check_result, rust_target_path, typescript_check_result,
};
use aicms::bench::code_extractor::SourceFile;
use aicms::bench::config::FilterConfig;
use aicms::bench::corpus::{precedes, CorpusLoader};
use aicms::bench::harness::{
    common_tasks, discovered_task_spec, list_filter, missing_sides, runnable_tasks,
};
use aicms::bench::task::{Difficulty, Language, Task, TaskCategory};
use aicms::bench::test_runner::{
    compilation_failed, default_test_manifest, no_tests_found, own_test_entry, python_test_program,
    runs_as_single, rust_own_tests_result, rust_test_program, single_outcome, test_entry,
    test_tsconfig, typescript_test_program,
};

fn task(id: &str, language: Language, category: TaskCategory) -> Task {
    Task {
        id: id.to_string(),
        name: format!("Task {}", id),
        category,
        language,
        difficulty: Difficulty::Easy,
        description: String::new(),
    }
}

fn ids(tasks: &[Task]) -> Vec<&str> {
    tasks.iter().map(|t| t.id.as_str()).collect()
}

#[test]
fn tasks_are_sorted_by_identifier() {
    let tasks = vec![
        task("impl-b", Language::Rust, TaskCategory::Implement),
        task("bug-a", Language::Python, TaskCategory::Bugfix),
        task("impl-a", Language::Rust, TaskCategory::Implement),
        task("Z", Language::Rust, TaskCategory::Implement),
        task("bug-a", Language::TypeScript, TaskCategory::Refactor),
        task("", Language::Rust, TaskCategory::Implement),
        task("é", Language::Rust, TaskCategory::Implement),
    ];
    let sorted = CorpusLoader::sort_tasks(&tasks);
    assert_eq!(ids(&sorted), vec!["", "Z", "bug-a", "bug-a", "impl-a", "impl-b", "é"]);
    assert_eq!(sorted[2].language, Language::Python);
    assert_eq!(sorted[3].language, Language::TypeScript);
    let mut expected: Vec<String> = tasks.iter().map(|t| t.id.clone()).collect();
    expected.sort();
    assert_eq!(ids(&sorted), expected);
    assert!(CorpusLoader::sort_tasks(&vec![]).is_empty());
    assert!(precedes("a", "a"));
    assert!(precedes("a", "ab"));
    assert!(!precedes("ab", "a"));
    assert!(precedes("Z", "a"));
    assert!(!precedes("b", "a"));
    assert!(precedes("", ""));
}

#[test]
fn tasks_are_selected() {
    let tasks = vec![
        task("a", Language::Rust, TaskCategory::Implement),
        task("b", Language::Python, TaskCategory::Bugfix),
        task("c", Language::Rust, TaskCategory::Bugfix),
        task("b", Language::TypeScript, TaskCategory::Inference),
    ];
    let rust = FilterConfig { languages: Some(vec!["rust".to_string()]), ..Default::default() };
    assert_eq!(ids(&CorpusLoader::filter_tasks(&tasks, &rust)), vec!["a", "c"]);
    assert_eq!(CorpusLoader::filter_tasks(&tasks, &FilterConfig::default()).len(), 4);
    let found = CorpusLoader::find_by_id(&tasks, "b").unwrap();
    assert_eq!(found.language, Language::Python);
    assert!(CorpusLoader::find_by_id(&tasks, "d").is_none());
    let runnable = runnable_tasks(&tasks, &vec![Language::Python, Language::TypeScript]);
    assert_eq!(ids(&runnable), vec!["b", "b"]);
    assert!(runnable_tasks(&tasks, &vec![]).is_empty());
    let filter = list_filter(Some("bugfix".to_string()), None);
    assert_eq!(ids(&CorpusLoader::filter_tasks(&tasks, &filter)), vec!["b", "c"]);
    let _ = CorpusLoader::new();
}

#[test]
fn comparison_rules() {
    assert_eq!(missing_sides(false, false), Some("baseline and aicms"));
    assert_eq!(missing_sides(false, true), Some("baseline"));
    assert_eq!(missing_sides(true, false), Some("aicms"));
    assert_eq!(missing_sides(true, true), None);
    assert_eq!(discovered_task_spec("t1"), "Task: t1\n\n(Task details from original corpus)");
    let names = |items: &[&str]| -> Vec<String> { items.iter().map(|s| s.to_string()).collect() };
    assert_eq!(
        common_tasks(&names(&["a", "b", "c", "a"]), &names(&["c", "a", "d"])),
        names(&["a", "c"])
    );
    assert!(common_tasks(&names(&["a"]), &names(&[])).is_empty());
}

fn source(path: &str) -> SourceFile {
    SourceFile { path: path.to_string(), content: String::new() }
}

#[test]
fn rust_project_rules() {
    assert!(is_cargo_manifest("Cargo.toml"));
    assert!(is_cargo_manifest("proj/Cargo.toml"));
    assert!(is_cargo_manifest("proj\\Cargo.toml"));
    assert!(!is_cargo_manifest("MyCargo.toml"));
    assert!(!is_cargo_manifest("cargo.toml"));
    assert!(has_cargo_manifest(&vec![source("src/lib.rs"), source("x/Cargo.toml")]));
    assert!(!has_cargo_manifest(&vec![source("src/lib.rs")]));
    assert_eq!(rust_target_path("x/Cargo.toml"), "Cargo.toml");
    assert_eq!(rust_target_path("lib.rs"), "src/lib.rs");
    assert_eq!(rust_target_path("src/lib.rs"), "src/lib.rs");
    assert!(default_manifest().starts_with("[package]\nname = \"benchmark_project\"\n"));
    assert!(default_manifest().ends_with("[dependencies]\n"));
    assert!(default_test_manifest().ends_with("[dependencies]\n\n[dev-dependencies]\n"));
    assert!(check_tsconfig().contains("\"noEmit\": true"));
    assert!(test_tsconfig().contains("\"outDir\": \"./dist\""));
    assert!(is_python_project_directory("pkg"));
    assert!(!is_python_project_directory("venv"));
    assert!(!is_python_project_directory("__pycache__"));
    assert!(!is_python_project_directory(".tox"));
}

#[test]
fn check_results() {
    let result = rust_check_result(false, "error[E1]: bad\nwarning[w]: hm\nnote\n");
    assert!(!result.success);
    assert_eq!(result.errors, vec!["error[E1]: bad"]);
    assert_eq!(result.warnings, vec!["warning[w]: hm"]);
    let py = python_check_result(true, "");
    assert!(py.success && py.errors.is_empty() && py.warnings.is_empty());
    assert_eq!(python_check_result(false, "SyntaxError").errors, vec!["SyntaxError"]);
    let ts = typescript_check_result(false, "a.ts(1,1): error TS1: x\nok\n", "fatal error\n");
    assert_eq!(ts.errors, vec!["a.ts(1,1): error TS1: x", "fatal error"]);
    assert_eq!(python_file_error("a.py", " bad \n"), "a.py:  bad \n");
    assert_eq!(python_directory_error("a.py", " bad \n"), "a.py: bad");
    assert!(python_files_result(vec![]).success);
    let failed = python_files_result(vec!["x".to_string()]);
    assert!(!failed.success);
    assert_eq!(failed.errors, vec!["x"]);
}

#[test]
fn test_programs_and_outcomes() {
    assert_eq!(
        rust_test_program("fn a() {}", "#[test] fn t() {}"),
        "fn a() {}\n\n#[cfg(test)]\nmod tests {\n    use super::*;\n#[test] fn t() {}\n}"
    );
    assert_eq!(
        python_test_program("x = 1", "    def test(self): pass"),
        "x = 1\n\nimport unittest\n\nclass TestGenerated(unittest.TestCase):\n    def test(self): pass\n\nif __name__ == '__main__':\n    unittest.main(verbosity=2)"
    );
    assert_eq!(typescript_test_program("a", "b"), "a\n\nb");
    let failed = compilation_failed("E0308");
    assert_eq!((failed.passed, failed.failed, failed.total), (0, 1, 1));
    assert_eq!(failed.output, "Compilation failed: E0308");
    let ok = single_outcome(true, "out", "err");
    assert_eq!((ok.passed, ok.failed, ok.total), (1, 0, 1));
    assert_eq!(ok.output, "outerr");
    let bad = single_outcome(false, "", "");
    assert_eq!((bad.passed, bad.failed, bad.total), (0, 1, 1));
    let none = no_tests_found();
    assert_eq!((none.passed, none.failed, none.total), (0, 0, 0));
    assert_eq!(none.output, "No test files found");
    let build = rust_own_tests_result(false, "", "linker error").unwrap();
    assert_eq!((build.passed, build.failed, build.total), (0, 1, 1));
    assert_eq!(build.output, "Build/test failed: linker error");
    let ran = rust_own_tests_result(false, "test result: FAILED. 1 passed; 2 failed;", "x").unwrap();
    assert_eq!((ran.passed, ran.failed, ran.total), (1, 2, 3));
    let quiet = rust_own_tests_result(true, "", "").unwrap();
    assert_eq!(quiet.total, 0);
    assert_eq!(test_entry(&vec![source("t/a.test.ts"), source("b.ts")]), "t/a.test.ts");
    assert_eq!(test_entry(&vec![]), "test.ts");
    assert_eq!(own_test_entry(&vec![source("a.ts"), source("a.test.ts"), source("test2.ts")]), Some(1));
    assert_eq!(own_test_entry(&vec![source("a.ts"), source("b.ts")]), Some(0));
    assert_eq!(own_test_entry(&vec![]), None);
    assert!(runs_as_single(&vec![source("a")], &vec![source("b")]));
    assert!(!runs_as_single(&vec![source("a"), source("c")], &vec![source("b")]));
    assert!(!runs_as_single(&vec![source("a")], &vec![]));
}

#[test]
fn test_load_filtered_by_language() {
    let tasks = vec![
        task("rust-task", Language::Rust, TaskCategory::Implement),
        task("python-task", Language::Python, TaskCategory::Implement),
    ];
    let filter = FilterConfig {
        languages: Some(vec!["rust".to_string()]),
        ..Default::default()
    };

    let tasks = CorpusLoader::filter_tasks(&CorpusLoader::sort_tasks(&tasks), &filter);
    assert_eq!(tasks.len(), 1);
    assert_eq!(tasks[0].id, "rust-task");
}
