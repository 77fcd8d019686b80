//! Compilation checks: what a check reports, and the rules that decide
//! which files and messages count. The compilers themselves are run outside
//! the library.

use crate::bench::code_extractor::SourceFile;
use crate::bench::task::Language;
use crate::bench::test_runner::{normalize_rust_path, under_src};
use crate::text::{
    contains, ends_with, equals, has_infix, has_prefix, has_suffix, lines, lines_of, starts_with, trim,
    trimmed,
};
use vstd::prelude::*;
use vstd::string::StringExecFns;

verus! {

/// What a compilation check found.
#[derive(Debug, Clone)]
pub struct CompilationResult {
    pub success: bool,
    pub errors: Vec<String>,
    pub warnings: Vec<String>,
}

/// Whether a line of compiler output is a message of the kind `msg_type`:
/// it holds the kind followed by an opening square bracket.
pub open spec fn is_message(line: Seq<char>, msg_type: Seq<char>) -> bool {
    has_infix(line, msg_type + "["@)
}

/// The lines of the Rust compiler's output that are messages of the kind
/// `msg_type`, such as `error` or `warning`.
pub fn extract_rust_messages(output: &str, msg_type: &str) -> (messages: Vec<String>)
    ensures
        messages.deep_view() == lines_of(output@).filter(|line: Seq<char>| is_message(line, msg_type@)),
{
    let ghost keep = |line: Seq<char>| is_message(line, msg_type@);
    let marker = String::from_str(msg_type).concat("[");
    let all = lines(output);
    let mut messages: Vec<String> = Vec::new();
    let mut i: usize = 0;
    proof {
        reveal(Seq::filter);
        assert(all.deep_view().take(0) =~= Seq::<Seq<char>>::empty());
        assert(messages.deep_view() =~= Seq::<Seq<char>>::empty());
    }
    while i < all.len()
        invariant
            i <= all@.len(),
            all.deep_view() == lines_of(output@),
            marker@ == msg_type@ + "["@,
            keep == |line: Seq<char>| is_message(line, msg_type@),
            messages.deep_view() == all.deep_view().take(i as int).filter(keep),
        decreases all@.len() - i,
    {
        let ghost upto = all.deep_view().take(i as int + 1);
        proof {
            reveal(Seq::filter);
            assert(upto.drop_last() =~= all.deep_view().take(i as int));
            assert(upto.last() == all@[i as int]@);
        }
        if contains(all[i].as_str(), marker.as_str()) {
            let ghost before = messages.deep_view();
            messages.push(all[i].clone());
            assert(messages.deep_view() =~= before.push(all@[i as int]@));
        }
        i += 1;
    }
    assert(all.deep_view().take(i as int) =~= all.deep_view());
    messages
}

/// What a look into a directory found: whether it holds a `Cargo.toml`, and
/// whether it holds files of each language.
#[derive(Debug, Clone, Copy)]
pub struct DirectoryFacts {
    pub has_cargo_toml: bool,
    pub has_rust_files: bool,
    pub has_python_files: bool,
    pub has_typescript_files: bool,
}

/// The language of the code in a directory. A `Cargo.toml` or a Rust file
/// means Rust; failing that a Python file means Python, and failing that a
/// TypeScript file means TypeScript.
pub fn language_of_directory(facts: DirectoryFacts) -> (language: Option<Language>)
    ensures
        language == if facts.has_cargo_toml || facts.has_rust_files {
            Some(Language::Rust)
        } else if facts.has_python_files {
            Some(Language::Python)
        } else if facts.has_typescript_files {
            Some(Language::TypeScript)
        } else {
            None
        },
{
    if facts.has_cargo_toml || facts.has_rust_files {
        Some(Language::Rust)
    } else if facts.has_python_files {
        Some(Language::Python)
    } else if facts.has_typescript_files {
        Some(Language::TypeScript)
    } else {
        None
    }
}

/// Whether the search for source files enters a directory of this name:
/// not a hidden one, and neither `target` nor `__pycache__`.
pub fn is_searched_directory(name: &str) -> (b: bool)
    ensures
        b == (!has_prefix(name@, "."@) && name@ != "target"@ && name@ != "__pycache__"@),
{
    !starts_with(name, ".") && !equals(name, "target") && !equals(name, "__pycache__")
}

/// Whether an extension marks a file that belongs to generated code.
pub open spec fn is_source_extension(ext: Seq<char>) -> bool {
    ext == "rs"@ || ext == "py"@ || ext == "ts"@ || ext == "js"@ || ext == "toml"@ || ext
        == "json"@
}

/// Whether a file of this name and extension is collected as generated
/// code: any source or settings file but the one named `excluded`, which
/// holds the instructions of the run and is no part of its result.
pub fn is_collected_file(name: &str, ext: &str, excluded: &str) -> (b: bool)
    ensures
        b == (name@ != excluded@ && is_source_extension(ext@)),
{
    !equals(name, excluded) && (equals(ext, "rs") || equals(ext, "py") || equals(ext, "ts")
        || equals(ext, "js") || equals(ext, "toml") || equals(ext, "json"))
}

/// Whether the collection of generated code enters a directory of this
/// name: not a hidden one, and not `target`.
pub fn is_collected_directory(name: &str) -> (b: bool)
    ensures
        b == (!has_prefix(name@, "."@) && name@ != "target"@),
{
    !starts_with(name, ".") && !equals(name, "target")
}

/// Whether a path names the manifest of a Rust project: `Cargo.toml`, at
/// the top or in a directory.
pub open spec fn names_manifest(path: Seq<char>) -> bool {
    path == "Cargo.toml"@ || has_suffix(path, "/Cargo.toml"@) || has_suffix(path, "\\Cargo.toml"@)
}

/// Whether a path names the manifest of a Rust project.
pub fn is_cargo_manifest(path: &str) -> (b: bool)
    ensures
        b == names_manifest(path@),
{
    equals(path, "Cargo.toml") || ends_with(path, "/Cargo.toml") || ends_with(path, "\\Cargo.toml")
}

/// Whether one of the files is the manifest of a Rust project.
pub fn has_cargo_manifest(files: &Vec<SourceFile>) -> (b: bool)
    ensures
        b == exists|i: int| 0 <= i < files@.len() && names_manifest(#[trigger] files@[i].path@),
{
    let mut i: usize = 0;
    while i < files.len()
        invariant
            i <= files@.len(),
            forall|k: int| 0 <= k < i ==> !names_manifest(#[trigger] files@[k].path@),
        decreases files@.len() - i,
    {
        if is_cargo_manifest(files[i].path.as_str()) {
            return true;
        }
        i += 1;
    }
    false
}

/// Where a file of a Rust project is written: a manifest at the top, any
/// other file under `src/`.
pub open spec fn rust_place(path: Seq<char>) -> Seq<char> {
    if names_manifest(path) {
        "Cargo.toml"@
    } else {
        under_src(path)
    }
}

/// Where a file of a Rust project is written.
pub fn rust_target_path(path: &str) -> (place: String)
    ensures
        place@ == rust_place(path@),
{
    if is_cargo_manifest(path) {
        String::from_str("Cargo.toml")
    } else {
        normalize_rust_path(path)
    }
}

/// The manifest that a Rust project gets when it brings none.
pub fn default_manifest() -> (text: &'static str)
    ensures
        text@ == "[package]\nname = \"benchmark_project\"\nversion = \"0.1.0\"\nedition = \"2021\"\n\n[dependencies]\n"@,
{
    "[package]\nname = \"benchmark_project\"\nversion = \"0.1.0\"\nedition = \"2021\"\n\n[dependencies]\n"
}

/// The settings with which a TypeScript project is checked.
pub fn check_tsconfig() -> (text: &'static str)
    ensures
        text@ == "{\n  \"compilerOptions\": {\n    \"strict\": true,\n    \"noEmit\": true,\n    \"esModuleInterop\": true,\n    \"skipLibCheck\": true\n  },\n  \"include\": [\"**/*.ts\"]\n}"@,
{
    "{\n  \"compilerOptions\": {\n    \"strict\": true,\n    \"noEmit\": true,\n    \"esModuleInterop\": true,\n    \"skipLibCheck\": true\n  },\n  \"include\": [\"**/*.ts\"]\n}"
}

/// What a check with the Rust compiler found, given whether the compiler
/// succeeded and what it wrote to its standard error.
pub fn rust_check_result(success: bool, stderr: &str) -> (result: CompilationResult)
    ensures
        result.success == success,
        result.errors.deep_view() == lines_of(stderr@).filter(
            |line: Seq<char>| is_message(line, "error"@),
        ),
        result.warnings.deep_view() == lines_of(stderr@).filter(
            |line: Seq<char>| is_message(line, "warning"@),
        ),
{
    CompilationResult {
        success,
        errors: extract_rust_messages(stderr, "error"),
        warnings: extract_rust_messages(stderr, "warning"),
    }
}

/// What a check of one Python file found: whatever the compiler wrote to
/// its standard error is the one error.
pub fn python_check_result(success: bool, stderr: &str) -> (result: CompilationResult)
    ensures
        result.success == success,
        result.errors.deep_view() == if stderr@.len() == 0 {
            Seq::<Seq<char>>::empty()
        } else {
            seq![stderr@]
        },
        result.warnings@.len() == 0,
{
    let mut errors: Vec<String> = Vec::new();
    if !stderr.is_empty() {
        errors.push(String::from_str(stderr));
        assert(errors.deep_view() =~= seq![stderr@]);
    } else {
        assert(errors.deep_view() =~= Seq::<Seq<char>>::empty());
    }
    CompilationResult { success, errors, warnings: Vec::new() }
}

/// What a check with the TypeScript compiler found: every line of its
/// output that holds the word `error` is an error.
pub fn typescript_check_result(success: bool, stdout: &str, stderr: &str) -> (result: CompilationResult)
    ensures
        result.success == success,
        result.errors.deep_view() == lines_of(stdout@ + stderr@).filter(
            |line: Seq<char>| has_infix(line, "error"@),
        ),
        result.warnings@.len() == 0,
{
    let ghost keep = |line: Seq<char>| has_infix(line, "error"@);
    let combined = String::from_str(stdout).concat(stderr);
    let all = lines(combined.as_str());
    let mut errors: Vec<String> = Vec::new();
    let mut i: usize = 0;
    proof {
        reveal(Seq::filter);
        assert(all.deep_view().take(0) =~= Seq::<Seq<char>>::empty());
        assert(errors.deep_view() =~= Seq::<Seq<char>>::empty());
    }
    while i < all.len()
        invariant
            i <= all@.len(),
            all.deep_view() == lines_of(stdout@ + stderr@),
            keep == |line: Seq<char>| has_infix(line, "error"@),
            errors.deep_view() == all.deep_view().take(i as int).filter(keep),
        decreases all@.len() - i,
    {
        let ghost upto = all.deep_view().take(i as int + 1);
        proof {
            reveal(Seq::filter);
            assert(upto.drop_last() =~= all.deep_view().take(i as int));
            assert(upto.last() == all@[i as int]@);
        }
        if contains(all[i].as_str(), "error") {
            let ghost before = errors.deep_view();
            errors.push(all[i].clone());
            assert(errors.deep_view() =~= before.push(all@[i as int]@));
        }
        i += 1;
    }
    assert(all.deep_view().take(i as int) =~= all.deep_view());
    CompilationResult { success, errors, warnings: Vec::new() }
}

/// The error of a Python file that does not compile: its path and what the
/// compiler wrote.
pub fn python_file_error(path: &str, stderr: &str) -> (error: String)
    ensures
        error@ == path@ + ": "@ + stderr@,
{
    let mut error = String::from_str(path);
    error.append(": ");
    error.append(stderr);
    error
}

/// The error of a Python file in a directory that does not compile: its
/// path and what the compiler wrote, without white space around it.
pub fn python_directory_error(path: &str, stderr: &str) -> (error: String)
    ensures
        error@ == path@ + ": "@ + trimmed(stderr@),
{
    let mut error = String::from_str(path);
    error.append(": ");
    let message = trim(stderr);
    error.append(message.as_str());
    error
}

/// What a check of several Python files found: it succeeded if no file
/// gave an error.
pub fn python_files_result(errors: Vec<String>) -> (result: CompilationResult)
    ensures
        result.success == (errors@.len() == 0),
        result.errors == errors,
        result.warnings@.len() == 0,
{
    CompilationResult { success: errors.len() == 0, errors, warnings: Vec::new() }
}

/// Whether the check of a Python project enters a directory of this name:
/// not a hidden one, and neither `__pycache__` nor `venv`.
pub fn is_python_project_directory(name: &str) -> (b: bool)
    ensures
        b == (!has_prefix(name@, "."@) && name@ != "__pycache__"@ && name@ != "venv"@),
{
    !starts_with(name, ".") && !equals(name, "__pycache__") && !equals(name, "venv")
}

} // verus!
