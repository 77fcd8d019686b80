use aicms::language::Language;
use aicms::parser::{
    extract_comment_blocks, extract_function_locations, extract_single_line_comment,
    find_preceding_comment_block, get_function_pattern, is_doc_comment, locate_function, parse_file,
    CommentBlock, CommentLine,
};

#[test]
fn test_extract_rust_comment() {
    let style = Language::Rust.comment_style();
    assert_eq!(
        extract_single_line_comment("/// @ai:intent Test", &style),
        Some("@ai:intent Test".to_string())
    );
}

#[test]
fn test_extract_python_comment() {
    let style = Language::Python.comment_style();
    assert_eq!(
        extract_single_line_comment("# @ai:intent Test", &style),
        Some("@ai:intent Test".to_string())
    );
}

#[test]
fn comment_forms_are_recognised_in_order() {
    let rust = Language::Rust.comment_style();
    assert_eq!(extract_single_line_comment("//! top", &rust), Some("top".to_string()));
    assert_eq!(extract_single_line_comment("// plain", &rust), Some("plain".to_string()));
    assert_eq!(extract_single_line_comment("/* whole */", &rust), Some("whole".to_string()));
    assert_eq!(extract_single_line_comment("* inside", &rust), Some("inside".to_string()));
    assert_eq!(extract_single_line_comment("  * inside", &rust), Some("inside".to_string()));
    assert_eq!(extract_single_line_comment("/**/", &rust), None);
    assert_eq!(extract_single_line_comment("let x = 1;", &rust), None);
    assert_eq!(extract_single_line_comment("", &rust), None);
    assert_eq!(extract_single_line_comment("//", &rust), Some(String::new()));
    let python = Language::Python.comment_style();
    assert_eq!(extract_single_line_comment("\"\"\"doc\"\"\"", &python), Some("doc".to_string()));
    assert_eq!(extract_single_line_comment("\"\"\"", &python), None);
    assert_eq!(extract_single_line_comment("* star", &python), None);
}

#[test]
fn doc_comment_is_told_from_plain_comment() {
    let rust = Language::Rust.comment_style();
    assert!(is_doc_comment("/// doc", &rust));
    assert!(is_doc_comment("//! doc", &rust));
    assert!(!is_doc_comment("// plain", &rust));
    assert!(!is_doc_comment("/* block */", &rust));
    let go = Language::Go.comment_style();
    assert!(is_doc_comment("// any", &go));
}

#[test]
fn block_spans_blank_line() {
    let content = "/// first\n\n/// second\nfn f() {}\n";
    let blocks = extract_comment_blocks(content, Language::Rust);
    assert_eq!(blocks.len(), 1);
    assert_eq!(blocks[0].lines.len(), 2);
    assert_eq!(blocks[0].start_line, 1);
    assert_eq!(blocks[0].end_line, 3);
    assert_eq!(blocks[0].lines[0].content, "first");
    assert_eq!(blocks[0].lines[0].line_number, 1);
    assert!(blocks[0].lines[0].is_doc_comment);
    assert_eq!(blocks[0].lines[1].content, "second");
    assert_eq!(blocks[0].lines[1].line_number, 3);
}

#[test]
fn code_line_ends_a_block() {
    let content = "// one\nlet x = 1;\n// two\r\n\n   \n// three";
    let blocks = extract_comment_blocks(content, Language::Rust);
    assert_eq!(blocks.len(), 2);
    assert_eq!((blocks[0].start_line, blocks[0].end_line), (1, 1));
    assert_eq!((blocks[1].start_line, blocks[1].end_line), (3, 6));
    assert_eq!(blocks[1].lines.len(), 2);
    assert_eq!(blocks[1].lines[0].content, "two");
    assert!(!blocks[1].lines[0].is_doc_comment);
    assert_eq!(blocks[1].lines[1].content, "three");
}

#[test]
fn file_without_comments_has_no_blocks() {
    assert!(extract_comment_blocks("", Language::Rust).is_empty());
    assert!(extract_comment_blocks("fn main() {}\n", Language::Rust).is_empty());
}

fn block_ending_at(end_line: usize) -> CommentBlock {
    CommentBlock {
        lines: vec![CommentLine {
            line_number: end_line,
            content: "text".to_string(),
            is_doc_comment: true,
        }],
        start_line: end_line,
        end_line,
    }
}

#[test]
fn block_one_or_two_lines_above_is_associated() {
    let blocks = vec![block_ending_at(2), block_ending_at(7), block_ending_at(8)];
    assert_eq!(find_preceding_comment_block(3, &blocks), Some(0));
    assert_eq!(find_preceding_comment_block(4, &blocks), Some(0));
    assert_eq!(find_preceding_comment_block(5, &blocks), None);
    assert_eq!(find_preceding_comment_block(9, &blocks), Some(1));
    assert_eq!(find_preceding_comment_block(10, &blocks), Some(2));
    assert_eq!(find_preceding_comment_block(11, &blocks), None);
    assert_eq!(find_preceding_comment_block(2, &blocks), None);
    assert_eq!(find_preceding_comment_block(1, &blocks), None);
    assert_eq!(find_preceding_comment_block(0, &blocks), None);
    assert_eq!(find_preceding_comment_block(3, &Vec::new()), None);
}

#[test]
fn function_three_lines_below_block_has_none() {
    let content = "/// doc\n\n\nfn far() {}\n/// near\n#[inline]\nfn close() {}\n";
    let blocks = extract_comment_blocks(content, Language::Rust);
    let found = extract_function_locations(content, Language::Rust, &blocks);
    assert_eq!(found.len(), 2);
    assert_eq!(found[0].name, "far");
    assert_eq!(found[0].line, 4);
    assert_eq!(found[0].preceding_comment_block, None);
    assert_eq!(found[1].name, "close");
    assert_eq!(found[1].line, 7);
    assert_eq!(found[1].preceding_comment_block, Some(1));
}

#[test]
fn function_on_first_line_is_found() {
    let content = "fn first() {}\n// after\n";
    let blocks = extract_comment_blocks(content, Language::Rust);
    let found = extract_function_locations(content, Language::Rust, &blocks);
    assert_eq!(found.len(), 1);
    assert_eq!(found[0].line, 1);
    assert_eq!(found[0].preceding_comment_block, None);
}

#[test]
fn function_patterns_per_language() {
    let none: Vec<CommentBlock> = Vec::new();
    let py = extract_function_locations("async def run(x):\n    pass\n", Language::Python, &none);
    assert_eq!(py.len(), 1);
    assert_eq!(py[0].name, "run");
    let ts = extract_function_locations(
        "export async function load() {}\nconst f = () => 1;\n",
        Language::TypeScript,
        &none,
    );
    assert_eq!(ts.len(), 1);
    assert_eq!(ts[0].name, "load");
    let go = extract_function_locations("func (s *Server) Start() error {\n", Language::Go, &none);
    assert_eq!(go.len(), 1);
    assert_eq!(go[0].name, "Start");
    let java = extract_function_locations(
        "    public static int add(int a, int b) {\n",
        Language::Java,
        &none,
    );
    assert_eq!(java.len(), 1);
    assert_eq!(java[0].name, "add");
    let c = extract_function_locations("int main(void) {\n", Language::C, &none);
    assert_eq!(c.len(), 1);
    assert_eq!(c[0].name, "main");
    let multi = extract_function_locations("pub fn\n    spread() {}\n", Language::Rust, &none);
    assert!(multi.is_empty());
    assert_eq!(get_function_pattern(Language::Python), r"^\s*(?:async\s+)?def\s+(\w+)");
}

#[test]
fn function_without_name_group_is_unknown() {
    let none: Vec<CommentBlock> = Vec::new();
    let whole_only = vec![Some("fn".to_string())];
    assert_eq!(locate_function(&whole_only, 5, &none).name, "unknown");
    let unmatched = vec![Some("fn x".to_string()), None];
    assert_eq!(locate_function(&unmatched, 5, &none).name, "unknown");
    let named = vec![Some("fn x".to_string()), Some("x".to_string())];
    let at = locate_function(&named, 5, &vec![block_ending_at(4)]);
    assert_eq!(at.name, "x");
    assert_eq!(at.line, 5);
    assert_eq!(at.preceding_comment_block, Some(0));
}

#[test]
fn parse_file_rejects_unknown_extension() {
    match parse_file("notes.txt", "// text\n") {
        Err(e) => assert_eq!(e.message(), "Unsupported file type: txt"),
        Ok(_) => panic!("a text file is no source file"),
    }
    let parsed = parse_file("a/b/mod.py", "# doc\ndef f():\n    pass\n").unwrap();
    assert_eq!(parsed.language, Language::Python);
    assert_eq!(parsed.comment_blocks.len(), 1);
    assert_eq!(parsed.function_locations.len(), 1);
    assert_eq!(parsed.function_locations[0].preceding_comment_block, Some(0));
}

#[test]
fn annotation_lines_of_a_block() {
    let content = "/// plain words\n/// @ai:intent Do it\n/// more\n/// @ai:pre x > 0\n";
    let blocks = extract_comment_blocks(content, Language::Rust);
    assert_eq!(blocks.len(), 1);
    assert!(blocks[0].has_ai_annotations());
    let lines = blocks[0].ai_annotation_lines();
    assert_eq!(lines.len(), 2);
    assert_eq!(lines[0].line_number, 2);
    assert_eq!(lines[1].content, "@ai:pre x > 0");
    let plain = extract_comment_blocks("// nothing here\n", Language::Rust);
    assert!(!plain[0].has_ai_annotations());
    assert!(plain[0].ai_annotation_lines().is_empty());
}
