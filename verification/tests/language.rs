use aicms::language::{detect_language, is_supported_file, language_for_extension, Language};

#[test]
fn test_detect_rust() {
    assert_eq!(detect_language("test.rs"), Some(Language::Rust));
}

#[test]
fn test_detect_python() {
    assert_eq!(detect_language("test.py"), Some(Language::Python));
}

#[test]
fn test_detect_typescript() {
    assert_eq!(detect_language("test.ts"), Some(Language::TypeScript));
}

#[test]
fn test_unsupported() {
    assert_eq!(detect_language("test.txt"), None);
}

#[test]
fn every_extension_names_its_language() {
    let all = Language::all();
    assert_eq!(all.len(), 8);
    for lang in all {
        for ext in lang.extensions() {
            assert_eq!(language_for_extension(ext), Some(lang));
            let path = format!("dir/file.{}", ext);
            assert_eq!(detect_language(&path), Some(lang));
            assert!(is_supported_file(&path));
        }
    }
}

#[test]
fn extension_match_is_exact() {
    assert_eq!(language_for_extension("RS"), None);
    assert_eq!(language_for_extension("Rs"), None);
    assert_eq!(language_for_extension(""), None);
    assert_eq!(language_for_extension("rss"), None);
    assert_eq!(detect_language("Main.JAVA"), None);
    assert_eq!(detect_language("Makefile"), None);
    assert_eq!(detect_language(".rs"), None);
    assert_eq!(detect_language("archive.tar.hpp"), Some(Language::Cpp));
    assert!(!is_supported_file("README.md"));
}

#[test]
fn names_and_styles() {
    assert_eq!(Language::Rust.name(), "rust");
    assert_eq!(Language::Cpp.name(), "cpp");
    assert_eq!(Language::JavaScript.name(), "javascript");
    let rust = Language::Rust.comment_style();
    assert_eq!(rust.doc_line, vec!["///", "//!"]);
    assert_eq!(rust.single_line, vec!["//"]);
    assert_eq!(rust.block_start, Some("/*"));
    assert_eq!(rust.block_end, Some("*/"));
    assert_eq!(rust.block_line_prefix, Some("*"));
    let python = Language::Python.comment_style();
    assert_eq!(python.single_line, vec!["#"]);
    assert_eq!(python.doc_line, vec!["#"]);
    assert_eq!(python.block_start, Some("\"\"\""));
    assert_eq!(python.block_line_prefix, None);
    let java = Language::Java.comment_style();
    assert_eq!(java.doc_line, vec!["//"]);
    assert_eq!(Language::C.extensions(), vec!["c", "h"]);
    assert_eq!(Language::JavaScript.extensions(), vec!["js", "jsx", "mjs"]);
}
