use aicms::bench::code_extractor::{CodeExtractor, CodeExtractorTrait, ExtractedCode, ExtractedFile};
use aicms::bench::task::Language;

#[test]
fn test_extract_rust_code() {
    let extractor = CodeExtractor::new();
    let response = r#"
Here's the implementation:

```rust
fn factorial(n: u64) -> u64 {
    if n <= 1 { 1 } else { n * factorial(n - 1) }
}
```
"#;

    let blocks = extractor.extract(response, Language::Rust);
    assert_eq!(blocks.len(), 1);
    assert!(blocks[0].code.contains("factorial"));
    assert_eq!(blocks[0].language, Some(Language::Rust));
}

#[test]
fn test_extract_primary_prefers_expected_language() {
    let extractor = CodeExtractor::new();
    let response = r#"
```python
def test(): pass
```

```rust
fn test() {}
```
"#;

    let primary = extractor.extract_primary(response, Language::Rust);
    assert!(primary.is_some());
    assert!(primary.unwrap().code.contains("fn test"));
}

#[test]
fn test_extract_unlabeled_code_block() {
    let extractor = CodeExtractor::new();
    let response = r#"
```
fn test() {}
```
"#;

    let primary = extractor.extract_primary(response, Language::Rust);
    assert!(primary.is_some());
}

#[test]
fn test_extract_files_with_path_in_fence() {
    let extractor = CodeExtractor::new();
    let response = r#"
Here are the files:

```rust:src/lib.rs
pub mod user;
pub mod repository;
```

```rust:src/user.rs
pub struct User {
    pub id: u64,
    pub name: String,
}
```
"#;

    let files = extractor.extract_files(response, Language::Rust);
    assert_eq!(files.len(), 2);
    assert_eq!(files[0].path, "src/lib.rs");
    assert_eq!(files[1].path, "src/user.rs");
    assert!(files[0].code.contains("pub mod user"));
    assert!(files[1].code.contains("struct User"));
}

#[test]
fn test_extract_files_with_marker_comment() {
    let extractor = CodeExtractor::new();
    let response = r#"
```rust
// file: src/main.rs
fn main() {
    println!("Hello");
}
```

```rust
// file: src/lib.rs
pub fn hello() {}
```
"#;

    let files = extractor.extract_files(response, Language::Rust);
    assert_eq!(files.len(), 2);
    assert_eq!(files[0].path, "src/main.rs");
    assert_eq!(files[1].path, "src/lib.rs");
    // Marker comment should be stripped
    assert!(!files[0].code.contains("// file:"));
    assert_eq!(files[0].code, "fn main() {\n    println!(\"Hello\");\n}");
    assert_eq!(files[1].code, "pub fn hello() {}");
}

#[test]
fn test_extract_files_fallback_no_paths() {
    let extractor = CodeExtractor::new();
    let response = r#"
```rust
fn main() {}
```

```rust
fn helper() {}
```
"#;

    let files = extractor.extract_files(response, Language::Rust);
    assert_eq!(files.len(), 2);
    assert_eq!(files[0].path, "main.rs");
    assert_eq!(files[1].path, "file1.rs");
    assert_eq!(files[1].code, "fn helper() {}");
}

#[test]
fn fence_words_name_languages() {
    assert_eq!(CodeExtractor::parse_language("rust"), Some(Language::Rust));
    assert_eq!(CodeExtractor::parse_language("RS"), Some(Language::Rust));
    assert_eq!(CodeExtractor::parse_language("Python"), Some(Language::Python));
    assert_eq!(CodeExtractor::parse_language("py"), Some(Language::Python));
    assert_eq!(CodeExtractor::parse_language("TypeScript"), Some(Language::TypeScript));
    assert_eq!(CodeExtractor::parse_language("ts"), Some(Language::TypeScript));
    assert_eq!(CodeExtractor::parse_language("javascript"), Some(Language::TypeScript));
    assert_eq!(CodeExtractor::parse_language("JS"), Some(Language::TypeScript));
    assert_eq!(CodeExtractor::parse_language("go"), None);
    assert_eq!(CodeExtractor::parse_language(""), None);
}

#[test]
fn blocks_of_other_languages_are_dropped() {
    let extractor = CodeExtractor::new();
    let response = "```python\nx = 1\n```\n```\nplain\n```\n```rust\nfn a() {}\n```\n```\n\n```\n";
    let blocks = extractor.extract_blocks(response, Language::Rust);
    assert_eq!(blocks.len(), 3);
    assert_eq!(blocks[0].code, "plain");
    assert_eq!(blocks[0].language, None);
    assert_eq!(blocks[1].code, "fn a() {}");
    assert_eq!(blocks[2].code, "");
    let primary = extractor.primary_block(response, Language::Python).unwrap();
    assert_eq!(primary.code, "x = 1");
    let go = extractor.primary_block("```go\nfunc main() {}\n```\n", Language::Rust).unwrap();
    assert_eq!(go.language, None);
    assert_eq!(go.code, "func main() {}");
    assert!(extractor.primary_block("```python\npass\n```\n", Language::Rust).is_none());
    assert!(extractor.extract_blocks("no code at all", Language::Rust).is_empty());
}

fn code(text: &str, language: Option<Language>) -> ExtractedCode {
    ExtractedCode { code: text.to_string(), language }
}

#[test]
fn primary_block_rules() {
    let blocks = vec![code("", None), code("plain", None), code("fn a() {}", Some(Language::Rust))];
    let primary = CodeExtractor::primary_from(&blocks, Language::Rust).unwrap();
    assert_eq!(primary.code, "fn a() {}");
    let primary = CodeExtractor::primary_from(&blocks, Language::Python).unwrap();
    assert_eq!(primary.code, "plain");
    assert_eq!(primary.language, None);
    assert!(CodeExtractor::primary_from(&vec![code("", None)], Language::Rust).is_none());
    assert!(CodeExtractor::primary_from(&vec![], Language::Rust).is_none());
}

#[test]
fn matches_become_blocks_and_files() {
    let m = |groups: &[Option<&str>]| -> Vec<Option<String>> {
        groups.iter().map(|g| g.map(|s| s.to_string())).collect()
    };
    let matches = vec![
        m(&[Some("x"), Some("rust"), Some("  fn a() {}\n")]),
        m(&[Some("x"), Some("python"), Some("pass")]),
        m(&[Some("x"), None, None]),
        m(&[Some("x")]),
    ];
    let blocks = CodeExtractor::blocks_from(&matches, Language::Rust);
    assert_eq!(blocks.len(), 3);
    assert_eq!(blocks[0].code, "fn a() {}");
    assert_eq!(blocks[0].language, Some(Language::Rust));
    assert_eq!(blocks[1].code, "");
    assert_eq!(blocks[1].language, None);
    let fenced = vec![
        m(&[Some("x"), Some("rust"), Some(" src/a.rs "), Some("\nfn a() {}\n")]),
        m(&[Some("x"), Some("py"), Some("b.py"), Some("pass")]),
        m(&[Some("x"), Some("text"), Some("notes"), Some("hello")]),
    ];
    let files = CodeExtractor::files_from_fences(&fenced, Language::Rust);
    assert_eq!(files.len(), 2);
    assert_eq!(files[0].path, "src/a.rs");
    assert_eq!(files[0].code, "fn a() {}");
    assert_eq!(files[1].path, "notes");
    assert_eq!(files[1].language, None);
    let defaults = CodeExtractor::files_with_default_paths(
        vec![code("a", None), code("b", Some(Language::Python)), code("c", None)],
        Language::Python,
    );
    let paths: Vec<&str> = defaults.iter().map(|f| f.path.as_str()).collect();
    assert_eq!(paths, vec!["main.py", "file1.py", "file2.py"]);
    assert_eq!(defaults[1].language, Some(Language::Python));
}

#[test]
fn file_markers() {
    let extractor = CodeExtractor::new();
    assert_eq!(extractor.extract_file_marker("// file: src/a.rs\nfn a() {}"), Some("src/a.rs".to_string()));
    assert_eq!(extractor.extract_file_marker("# file:main.py  \nx = 1"), Some("main.py".to_string()));
    assert_eq!(extractor.extract_file_marker("fn a() {}\n// file: late.rs"), None);
    assert_eq!(extractor.extract_file_marker(""), None);
    assert_eq!(extractor.extract_file_marker("  // file: indented.rs"), None);
    assert_eq!(extractor.strip_file_marker("// file: a.rs\nline 1\nline 2\n"), "line 1\nline 2");
    assert_eq!(extractor.strip_file_marker("// file: a.rs"), "");
    assert_eq!(extractor.strip_file_marker("no marker\nhere\n"), "no marker\nhere\n");
    assert_eq!(CodeExtractor::marker_from(&None), None);
    assert_eq!(CodeExtractor::marker_from(&Some(vec![Some("x".to_string())])), None);
    let files = vec![ExtractedFile { path: "a.rs".to_string(), code: "fn a() {}".to_string(), language: None }];
    let sources = extractor.to_source_files(&files);
    assert_eq!(sources.len(), 1);
    assert_eq!(sources[0].path, "a.rs");
    assert_eq!(sources[0].content, "fn a() {}");
}
