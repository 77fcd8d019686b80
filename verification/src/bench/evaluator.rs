//! The evaluation of one execution: which files the answer holds, and what
//! is recorded about them. Compiling and testing the files is done outside
//! the library; their outcomes are handed in.

use crate::bench::annotation_scorer::{facts_of, AnnotationFacts, AnnotationScorer};
use crate::bench::code_extractor::{files_of, CodeExtractor, ExtractedFile, FileModel};
use crate::bench::compiler::CompilationResult;
use crate::bench::linter_adapter::{lint_issues, lint_lines, LintResult, LinterAdapter};
use crate::bench::runner::{cuts_cleanly, mode_name, ExecutionResult};
use crate::bench::task::{Language, Task};
use crate::bench::test_runner::TestResult;
use crate::pattern::{captures, captures_of, group, group_of, replace_all, replaced_all};
use crate::text::{join, joined, lines_of, replace, replaced};
use vstd::prelude::*;
use vstd::string::StringExecFns;
use vstd::utf8::*;

verus! {

/// What the evaluation of one execution found.
#[derive(Debug, Clone)]
pub struct EvaluationResult {
    pub task_id: String,
    pub mode: String,
    pub repetition: u32,
    pub compilation: Option<CompilationResult>,
    pub tests: Option<TestResult>,
    pub lint: Option<LintResult>,
    pub annotation_facts: Option<AnnotationFacts>,
    pub extracted_code: Option<String>,
    pub extracted_files: Option<Vec<ExtractedFile>>,
}

/// Evaluates executions.
#[derive(Debug, Clone, Copy)]
pub struct Evaluator {
    code_extractor: CodeExtractor,
    linter: LinterAdapter,
    annotation_scorer: AnnotationScorer,
}

/// A file under a heading that names its path.
pub open spec fn headed(file: FileModel) -> Seq<char> {
    "// file: "@ + file.path + "\n"@ + file.code
}

/// Each of the files under its heading.
pub open spec fn headed_files(files: Seq<FileModel>) -> Seq<Seq<char>> {
    Seq::new(files.len(), |i: int| headed(files[i]))
}

/// The files as one text: each under its heading, with a blank line
/// between files.
pub open spec fn combined(files: Seq<FileModel>) -> Seq<char> {
    joined(headed_files(files), "\n\n"@)
}

/// Whether a lint result is what linting `code` gives.
pub open spec fn is_lint_of(result: LintResult, code: Seq<char>) -> bool {
    let state = lint_lines(lines_of(code), lines_of(code).len() as int);
    &&& result.issues.deep_view() == lint_issues(state)
    &&& result.annotation_count == state.annotation_count
    &&& result.valid_annotation_count == state.valid_count
}

impl Evaluator {
    /// An evaluator.
    pub fn new() -> (evaluator: Evaluator) {
        Evaluator {
            code_extractor: CodeExtractor::new(),
            linter: LinterAdapter::new(),
            annotation_scorer: AnnotationScorer::new(),
        }
    }

    /// The files that the answer of an execution holds.
    pub fn extract(&self, task: &Task, execution: &ExecutionResult) -> (files: Vec<ExtractedFile>)
        ensures
            files.deep_view() == files_of(execution.response@, task.language),
    {
        self.code_extractor.files(execution.response.as_str(), task.language)
    }

    /// The result for an execution whose answer holds no code: nothing is
    /// recorded but the task, the mode and the repetition.
    pub fn without_code(task: &Task, execution: &ExecutionResult) -> (result: EvaluationResult)
        ensures
            result.task_id@ == task.id@,
            result.mode@ == mode_name(execution.mode),
            result.repetition == execution.repetition,
            result.compilation.is_none(),
            result.tests.is_none(),
            result.lint.is_none(),
            result.annotation_facts.is_none(),
            result.extracted_code.is_none(),
            result.extracted_files.is_none(),
    {
        EvaluationResult {
            task_id: task.id.clone(),
            mode: String::from_str(execution.mode.as_str()),
            repetition: execution.repetition,
            compilation: None,
            tests: None,
            lint: None,
            annotation_facts: None,
            extracted_code: None,
            extracted_files: None,
        }
    }

    /// The files as one text.
    pub fn combined_code(files: &Vec<ExtractedFile>) -> (code: String)
        ensures
            code@ == combined(files.deep_view()),
    {
        let mut parts: Vec<String> = Vec::new();
        let mut i: usize = 0;
        while i < files.len()
            invariant
                i <= files@.len(),
                parts@.len() == i,
                forall|k: int| 0 <= k < i ==> (#[trigger] parts@[k])@ == headed(files@[k]@),
            decreases files@.len() - i,
        {
            let mut part = String::from_str("// file: ");
            part.append(files[i].path.as_str());
            part.append("\n");
            part.append(files[i].code.as_str());
            parts.push(part);
            i += 1;
        }
        assert(parts.deep_view() =~= headed_files(files.deep_view()));
        join(&parts, "\n\n")
    }

    /// The result for an execution whose answer holds the given files, once
    /// they were compiled and tested: the outcomes that are handed in, the
    /// lint result and the annotation facts of the files taken as one text,
    /// that text, and the files.
    pub fn conclude(
        &self,
        task: &Task,
        execution: &ExecutionResult,
        files: Vec<ExtractedFile>,
        compilation: Option<CompilationResult>,
        tests: Option<TestResult>,
    ) -> (result: EvaluationResult)
        ensures
            result.task_id@ == task.id@,
            result.mode@ == mode_name(execution.mode),
            result.repetition == execution.repetition,
            result.compilation == compilation,
            result.tests == tests,
            result.lint matches Some(lint) && is_lint_of(lint, combined(files.deep_view())),
            result.annotation_facts == Some(facts_of(combined(files.deep_view()), seq![])),
            result.extracted_code.deep_view() == Some(combined(files.deep_view())),
            result.extracted_files == Some(files),
    {
        let code = Evaluator::combined_code(&files);
        let lint = self.linter.lint_code(code.as_str());
        let nothing: Vec<String> = Vec::new();
        assert(nothing.deep_view() =~= Seq::<Seq<char>>::empty());
        let facts = self.annotation_scorer.facts(code.as_str(), &nothing);
        EvaluationResult {
            task_id: task.id.clone(),
            mode: String::from_str(execution.mode.as_str()),
            repetition: execution.repetition,
            compilation,
            tests,
            lint: Some(lint),
            annotation_facts: Some(facts),
            extracted_code: Some(code),
            extracted_files: Some(files),
        }
    }
}

impl Default for Evaluator {
    fn default() -> (evaluator: Evaluator) {
        Evaluator::new()
    }
}

/// A text on one line: each line feed is written as a backslash and `n`.
pub open spec fn on_one_line(s: Seq<char>) -> Seq<char> {
    replaced(s, "\n"@, "\\n"@)
}

/// A text for a log: on one line, and cut to its first `max_len` bytes,
/// with three dots to mark the cut, if it is longer than that.
pub open spec fn shortened_for_log(s: Seq<char>, max_len: int) -> Seq<char> {
    if encode_utf8(s).len() <= max_len {
        on_one_line(s)
    } else {
        on_one_line(decode_utf8(encode_utf8(s).subrange(0, max_len))) + "..."@
    }
}

/// Shortens a text for a log. The cut must not fall inside a character.
pub fn truncate_for_log(s: &str, max_len: usize) -> (r: String)
    requires
        encode_utf8(s@).len() > max_len ==> cuts_cleanly(s@, max_len as int),
    ensures
        r@ == shortened_for_log(s@, max_len as int),
{
    let size = s.as_bytes().len();
    if size <= max_len {
        replace(s, "\n", "\\n")
    } else {
        let (head, _) = s.split_at(max_len);
        proof {
            encode_utf8_decode_utf8(head@);
            assert(encode_utf8(head@) == encode_utf8(s@).subrange(0, max_len as int));
        }
        replace(head, "\n", "\\n").concat("...")
    }
}

/// The pattern that finds the name of a function in code of each language.
pub open spec fn name_pattern(language: Language) -> Seq<char> {
    match language {
        Language::Rust => r"fn\s+(\w+)"@,
        Language::Python => r"def\s+(\w+)"@,
        Language::TypeScript => r"function\s+(\w+)"@,
    }
}

/// The name that a match of a name pattern gives, or `unknown`.
pub open spec fn name_of_match(groups: Option<Seq<Option<Seq<char>>>>) -> Seq<char> {
    match groups {
        Some(g) => match group_of(g, 1) {
            Some(name) => name,
            None => "unknown"@,
        },
        None => "unknown"@,
    }
}

/// The name that a match of a name pattern gives, or `unknown`.
pub fn name_from(groups: &Option<Vec<Option<String>>>) -> (name: String)
    ensures
        name@ == name_of_match(groups.deep_view()),
{
    match groups {
        Some(g) => match group(g, 1) {
            Some(name) => name.clone(),
            None => String::from_str("unknown"),
        },
        None => String::from_str("unknown"),
    }
}

/// The name of the first function that is defined in a code, or `unknown`
/// where none is found.
pub fn extract_function_name(code: &str, language: Language) -> (name: String)
    ensures
        name@ == name_of_match(captures_of(name_pattern(language), code@)),
{
    let found = match language {
        Language::Rust => captures(r"fn\s+(\w+)", code),
        Language::Python => captures(r"def\s+(\w+)", code),
        Language::TypeScript => captures(r"function\s+(\w+)", code),
    };
    name_from(&found)
}

/// The pattern of a comment line that holds an annotation, with its line
/// feed.
pub open spec fn annotation_line_pattern() -> Seq<char> {
    r"(?m)^\s*(///|//|#|\*)\s*@ai:[^\n]*\n?"@
}

/// The pattern of a module comment line that holds an annotation, with its
/// line feed.
pub open spec fn module_line_pattern() -> Seq<char> {
    r"(?m)^\s*//!\s*@ai:[^\n]*\n?"@
}

/// The pattern of three line feeds or more in a row.
pub open spec fn blank_lines_pattern() -> Seq<char> {
    r"\n{3,}"@
}

/// A code without its annotation lines: comment lines that hold an
/// annotation are dropped, then module comment lines that hold one, and
/// what is left has no more than one blank line in a row.
pub open spec fn stripped(code: Seq<char>) -> Seq<char> {
    replaced_all(
        blank_lines_pattern(),
        replaced_all(
            module_line_pattern(),
            replaced_all(annotation_line_pattern(), code, Seq::<char>::empty()),
            Seq::<char>::empty(),
        ),
        "\n\n"@,
    )
}

/// Drops the annotation lines from a code.
pub fn strip_aicms_annotations(code: &str) -> (r: String)
    ensures
        r@ == stripped(code@),
{
    let empty = String::new();
    let first = replace_all(r"(?m)^\s*(///|//|#|\*)\s*@ai:[^\n]*\n?", code, empty.as_str());
    let second = replace_all(r"(?m)^\s*//!\s*@ai:[^\n]*\n?", first.as_str(), empty.as_str());
    replace_all(r"\n{3,}", second.as_str(), "\n\n")
}

} // verus!
