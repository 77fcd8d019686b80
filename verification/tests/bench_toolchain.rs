use aicms::bench::compiler::{
    extract_rust_messages, is_collected_directory, is_collected_file, is_searched_directory,
    language_of_directory, DirectoryFacts,
};
use aicms::bench::task::Language;
use aicms::bench::toolchain::ToolchainValidator;

#[test]
fn test_get_language_tools_returns_all_languages() {
    let tools = ToolchainValidator::get_language_tools();
    assert_eq!(tools.len(), 3);
}

#[test]
fn test_get_install_hint_known_tools() {
    assert!(ToolchainValidator::get_install_hint("rustc").contains("rustup"));
    assert!(ToolchainValidator::get_install_hint("python").contains("python.org"));
    assert!(ToolchainValidator::get_install_hint("tsc").contains("npm"));
}

#[test]
fn tools_and_hints() {
    let tools = ToolchainValidator::get_language_tools();
    assert_eq!(tools[0].language, Language::Rust);
    assert_eq!(tools[0].compiler, "rustc");
    assert_eq!(tools[1].compiler, "python");
    assert_eq!(tools[2].compiler, "tsc");
    assert_eq!(tools[2].test_args, vec!["--version"]);
    assert_eq!(
        ToolchainValidator::get_install_hint("gcc"),
        "Check tool documentation for installation instructions"
    );
}

#[test]
fn validation_sorts_languages() {
    let status = ToolchainValidator::validate(&vec![true, false, true]);
    assert_eq!(status.available_languages, vec![Language::Rust, Language::TypeScript]);
    assert_eq!(status.missing_tools.len(), 1);
    assert_eq!(status.missing_tools[0].language, Language::Python);
    assert_eq!(status.missing_tools[0].tool_name, "python");
    assert_eq!(
        status.missing_tools[0].install_hint,
        "Install Python: https://www.python.org/downloads/"
    );
    let warnings = ToolchainValidator::log_warnings(&status);
    assert_eq!(
        warnings,
        vec!["Tool 'python' not found - python tasks will be skipped. Install Python: https://www.python.org/downloads/"]
    );
    let none = ToolchainValidator::validate(&vec![]);
    assert!(none.available_languages.is_empty());
    assert_eq!(none.missing_tools.len(), 3);
    let all = ToolchainValidator::validate(&vec![true, true, true, false]);
    assert_eq!(all.available_languages.len(), 3);
    assert!(ToolchainValidator::log_warnings(&all).is_empty());
}

#[test]
fn compiler_messages_are_picked_by_kind() {
    let output = "error[E0308]: mismatched types\n --> src/main.rs:1:1\nwarning[unused]: x\nerror: aborting\nnote: error[E1]\n";
    assert_eq!(
        extract_rust_messages(output, "error"),
        vec!["error[E0308]: mismatched types", "note: error[E1]"]
    );
    assert_eq!(extract_rust_messages(output, "warning"), vec!["warning[unused]: x"]);
    assert!(extract_rust_messages(output, "help").is_empty());
}

#[test]
fn directory_rules() {
    let facts = |c, r, p, t| DirectoryFacts {
        has_cargo_toml: c,
        has_rust_files: r,
        has_python_files: p,
        has_typescript_files: t,
    };
    assert_eq!(language_of_directory(facts(true, false, true, true)), Some(Language::Rust));
    assert_eq!(language_of_directory(facts(false, true, true, true)), Some(Language::Rust));
    assert_eq!(language_of_directory(facts(false, false, true, true)), Some(Language::Python));
    assert_eq!(language_of_directory(facts(false, false, false, true)), Some(Language::TypeScript));
    assert_eq!(language_of_directory(facts(false, false, false, false)), None);
    assert!(is_searched_directory("src"));
    assert!(!is_searched_directory(".git"));
    assert!(!is_searched_directory("target"));
    assert!(!is_searched_directory("__pycache__"));
    assert!(is_collected_directory("__pycache__"));
    assert!(!is_collected_directory("target"));
    assert!(!is_collected_directory(".venv"));
    assert!(is_collected_file("main.rs", "rs", "NOTES.md"));
    assert!(is_collected_file("package.json", "json", "NOTES.md"));
    assert!(!is_collected_file("README.md", "md", "NOTES.md"));
    assert!(!is_collected_file("skip.rs", "rs", "skip.rs"));
}
