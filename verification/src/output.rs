//! Reports as text: what is written, and in which tone each part is meant.
//!
//! A report is a list of spans. Painting the spans for a terminal, or
//! dropping the tones, is left to the caller; `plain_text` gives the report
//! without tones.

use crate::annotation::{FunctionAnnotations, FunctionModel, ParsedFile, ParsedFileModel};
use crate::confidence::two_decimals;
use crate::diff::{ChangeModel, ChangeType, ContractChange, DiffModel, DiffResult};
use crate::linter::{IssueModel, LintIssue, LintModel, LintResult, Severity};
use crate::text::{decimal, decimal_string, join, joined};
use vstd::prelude::*;
use vstd::string::StringExecFns;

verus! {

/// The forms in which a result can be written.
#[derive(Debug, Clone, Copy, PartialEq, Eq, Structural)]
pub enum OutputFormat {
    Text,
    Json,
    JsonPretty,
}

impl Default for OutputFormat {
    fn default() -> (format: OutputFormat)
        ensures
            format == OutputFormat::Text,
    {
        OutputFormat::Text
    }
}

/// The tone in which a part of a report is meant.
#[derive(Debug, Clone, Copy, PartialEq, Eq, Structural)]
pub enum Tone {
    Plain,
    Bold,
    Dimmed,
    Blue,
    Cyan,
    Green,
    GreenBold,
    RedBold,
    Yellow,
    YellowBold,
}

/// A part of a report: a text and its tone.
#[derive(Debug, Clone, PartialEq, Eq)]
pub struct Span {
    pub text: String,
    pub tone: Tone,
}

/// A span as plain values.
pub struct SpanModel {
    pub text: Seq<char>,
    pub tone: Tone,
}

impl View for Span {
    type V = SpanModel;

    open spec fn view(&self) -> SpanModel {
        SpanModel { text: self.text@, tone: self.tone }
    }
}

impl DeepView for Span {
    type V = SpanModel;

    open spec fn deep_view(&self) -> SpanModel {
        self@
    }
}

/// The span with the given text and tone.
pub open spec fn toned(text: Seq<char>, tone: Tone) -> SpanModel {
    SpanModel { text, tone }
}

/// The span with the given text and no tone.
pub open spec fn plain(text: Seq<char>) -> SpanModel {
    SpanModel { text, tone: Tone::Plain }
}

/// The texts of the spans, one after another.
pub open spec fn plain_text_of(spans: Seq<SpanModel>) -> Seq<char>
    decreases spans.len(),
{
    if spans.len() == 0 {
        seq![]
    } else {
        plain_text_of(spans.drop_last()) + spans.last().text
    }
}

/// The report without its tones.
pub fn plain_text(spans: &Vec<Span>) -> (text: String)
    ensures
        text@ == plain_text_of(spans.deep_view()),
{
    let mut text = String::new();
    let mut i: usize = 0;
    assert(spans.deep_view().take(0) =~= Seq::<SpanModel>::empty());
    while i < spans.len()
        invariant
            i <= spans@.len(),
            text@ == plain_text_of(spans.deep_view().take(i as int)),
        decreases spans@.len() - i,
    {
        let ghost upto = spans.deep_view().take(i as int + 1);
        assert(upto.drop_last() =~= spans.deep_view().take(i as int));
        assert(upto.last() == spans@[i as int]@);
        text.append(spans[i].text.as_str());
        i += 1;
    }
    assert(spans.deep_view().take(i as int) =~= spans.deep_view());
    text
}

/// Appends a span.
fn put(spans: &mut Vec<Span>, text: String, tone: Tone)
    ensures
        final(spans).deep_view() == old(spans).deep_view().push(toned(text@, tone)),
{
    let ghost before = spans.deep_view();
    let span = Span { text, tone };
    spans.push(span);
    assert(spans.deep_view() =~= before.push(span@));
}

/// Appends a span that holds a fixed text.
fn put_str(spans: &mut Vec<Span>, text: &str, tone: Tone)
    ensures
        final(spans).deep_view() == old(spans).deep_view().push(toned(text@, tone)),
{
    put(spans, String::from_str(text), tone);
}

/// Appends all of `more`.
fn put_all(spans: &mut Vec<Span>, more: Vec<Span>)
    ensures
        final(spans).deep_view() == old(spans).deep_view() + more.deep_view(),
{
    let ghost before = spans.deep_view();
    let ghost added = more.deep_view();
    let mut more = more;
    spans.append(&mut more);
    assert(spans.deep_view() =~= before + added);
}

/// The word for a severity, in its tone.
pub open spec fn severity_span(severity: Severity) -> SpanModel {
    match severity {
        Severity::Error => toned("ERROR"@, Tone::RedBold),
        Severity::Warning => toned("WARN"@, Tone::YellowBold),
        Severity::Info => toned("INFO"@, Tone::Blue),
    }
}

/// The lines of one lint issue: severity, place, message and code, and the
/// hint on a line of its own if there is one.
pub open spec fn issue_spans(issue: IssueModel) -> Seq<SpanModel> {
    seq![
        severity_span(issue.severity),
        plain(" "@),
        toned(issue.location.file + ":"@ + decimal(issue.location.line), Tone::Dimmed),
        plain(" - "@ + issue.message + " ("@),
        toned(issue.code, Tone::Dimmed),
        plain(")\n"@),
    ] + match issue.suggestion {
        Some(hint) => seq![plain("  "@), toned("hint:"@, Tone::Cyan), plain(" "@ + hint + "\n"@)],
        None => seq![],
    }
}

/// The lines of the first `upto` issues.
pub open spec fn issues_spans(issues: Seq<IssueModel>, upto: int) -> Seq<SpanModel>
    decreases upto,
{
    if upto <= 0 {
        seq![]
    } else {
        issues_spans(issues, upto - 1) + issue_spans(issues[upto - 1])
    }
}

/// The closing lines of a lint report: what was checked, and the verdict.
pub open spec fn lint_summary_spans(result: LintModel) -> Seq<SpanModel> {
    seq![
        plain(
            "\nChecked "@ + decimal(result.files_checked) + " files, "@ + decimal(
                result.functions_checked,
            ) + " functions\n"@,
        ),
    ] + if result.errors > 0 {
        seq![
            toned(decimal(result.errors), Tone::RedBold),
            plain(" errors, "@),
            toned(decimal(result.warnings), Tone::Yellow),
            plain(" warnings\n"@),
        ]
    } else if result.warnings > 0 {
        seq![
            toned("OK"@, Tone::GreenBold),
            plain(" "@),
            toned(decimal(result.warnings), Tone::Yellow),
            plain(" warnings\n"@),
        ]
    } else {
        seq![toned("OK"@, Tone::GreenBold), plain(" No issues found\n"@)]
    }
}

/// A lint result as a report: every issue, then the summary.
pub open spec fn lint_report(result: LintModel) -> Seq<SpanModel> {
    issues_spans(result.issues, result.issues.len() as int) + lint_summary_spans(result)
}

/// The lines of one lint issue.
fn format_issue(issue: &LintIssue) -> (spans: Vec<Span>)
    ensures
        spans.deep_view() == issue_spans(issue@),
{
    let mut spans: Vec<Span> = Vec::new();
    assert(spans.deep_view() =~= Seq::<SpanModel>::empty());
    match issue.severity {
        Severity::Error => put_str(&mut spans, "ERROR", Tone::RedBold),
        Severity::Warning => put_str(&mut spans, "WARN", Tone::YellowBold),
        Severity::Info => put_str(&mut spans, "INFO", Tone::Blue),
    }
    put_str(&mut spans, " ", Tone::Plain);
    let mut place = issue.location.file.clone();
    place.append(":");
    let line = decimal_string(issue.location.line as u64);
    place.append(line.as_str());
    put(&mut spans, place, Tone::Dimmed);
    let mut message = String::from_str(" - ");
    message.append(issue.message.as_str());
    message.append(" (");
    put(&mut spans, message, Tone::Plain);
    put(&mut spans, issue.code.clone(), Tone::Dimmed);
    put_str(&mut spans, ")\n", Tone::Plain);
    let ghost head = spans.deep_view();
    match &issue.suggestion {
        Some(hint) => {
            put_str(&mut spans, "  ", Tone::Plain);
            put_str(&mut spans, "hint:", Tone::Cyan);
            let mut text = String::from_str(" ");
            text.append(hint.as_str());
            text.append("\n");
            put(&mut spans, text, Tone::Plain);
        },
        None => {},
    }
    assert(spans.deep_view() =~= issue_spans(issue@));
    spans
}

/// A lint result as a report.
pub fn format_lint_result_text(result: &LintResult) -> (spans: Vec<Span>)
    ensures
        spans.deep_view() == lint_report(result@),
{
    let mut spans: Vec<Span> = Vec::new();
    assert(spans.deep_view() =~= Seq::<SpanModel>::empty());
    let mut i: usize = 0;
    while i < result.issues.len()
        invariant
            i <= result.issues@.len(),
            spans.deep_view() == issues_spans(result@.issues, i as int),
        decreases result.issues@.len() - i,
    {
        assert(result@.issues[i as int] == result.issues@[i as int]@);
        put_all(&mut spans, format_issue(&result.issues[i]));
        i += 1;
    }
    let ghost body = spans.deep_view();
    let mut checked = String::from_str("\nChecked ");
    let files = decimal_string(result.files_checked as u64);
    checked.append(files.as_str());
    checked.append(" files, ");
    let functions = decimal_string(result.functions_checked as u64);
    checked.append(functions.as_str());
    checked.append(" functions\n");
    put(&mut spans, checked, Tone::Plain);
    if result.errors > 0 {
        put(&mut spans, decimal_string(result.errors as u64), Tone::RedBold);
        put_str(&mut spans, " errors, ", Tone::Plain);
        put(&mut spans, decimal_string(result.warnings as u64), Tone::Yellow);
        put_str(&mut spans, " warnings\n", Tone::Plain);
    } else if result.warnings > 0 {
        put_str(&mut spans, "OK", Tone::GreenBold);
        put_str(&mut spans, " ", Tone::Plain);
        put(&mut spans, decimal_string(result.warnings as u64), Tone::Yellow);
        put_str(&mut spans, " warnings\n", Tone::Plain);
    } else {
        put_str(&mut spans, "OK", Tone::GreenBold);
        put_str(&mut spans, " No issues found\n", Tone::Plain);
    }
    assert(spans.deep_view() =~= body + lint_summary_spans(result@));
    spans
}

/// The heading of the changes of a kind, in its tone.
pub open spec fn kind_heading(kind: ChangeType) -> SpanModel {
    match kind {
        ChangeType::Breaking => toned("🔴 BREAKING CHANGES"@, Tone::RedBold),
        ChangeType::Notable => toned("🟡 NOTABLE CHANGES"@, Tone::YellowBold),
        ChangeType::NonBreaking => toned("🟢 NON-BREAKING CHANGES"@, Tone::GreenBold),
    }
}

/// The lines of one change: the function, the tag and the description, the
/// old and the new value where there is one, and an empty line. A change
/// that breaks nothing is ticked off.
pub open spec fn change_spans(change: ChangeModel) -> Seq<SpanModel> {
    seq![
        plain("  "@),
        toned(change.function_name, Tone::Cyan),
        plain("():\n    - "@),
        toned(change.tag, Tone::Yellow),
        plain(" "@ + change.description),
    ] + (if change.change_type == ChangeType::NonBreaking {
        seq![plain(" "@), toned("✓"@, Tone::Green)]
    } else {
        seq![]
    }) + seq![plain("\n"@)] + (match change.old_value {
        Some(old) => seq![plain("      Old: "@), toned(old, Tone::Dimmed), plain("\n"@)],
        None => seq![],
    }) + (match change.new_value {
        Some(new) => seq![plain("      New: "@ + new + "\n"@)],
        None => seq![],
    }) + seq![plain("\n"@)]
}

/// The lines of those of the first `upto` changes that are of the kind
/// `kind`.
pub open spec fn kind_spans(changes: Seq<ChangeModel>, kind: ChangeType, upto: int) -> Seq<SpanModel>
    decreases upto,
{
    if upto <= 0 {
        seq![]
    } else if changes[upto - 1].change_type == kind {
        kind_spans(changes, kind, upto - 1) + change_spans(changes[upto - 1])
    } else {
        kind_spans(changes, kind, upto - 1)
    }
}

/// The section of the changes of a kind: its heading and its changes, or
/// nothing where there is no such change.
pub open spec fn kind_section(changes: Seq<ChangeModel>, kind: ChangeType) -> Seq<SpanModel> {
    let body = kind_spans(changes, kind, changes.len() as int);
    if body.len() > 0 {
        seq![kind_heading(kind), plain("\n"@)] + body
    } else {
        seq![]
    }
}

/// A count in a summary: in `tone` if it is positive, a plain zero if not.
pub open spec fn count_span(count: nat, tone: Tone) -> SpanModel {
    if count > 0 {
        toned(decimal(count), tone)
    } else {
        plain("0"@)
    }
}

/// A diff as a report: the file, a section for each kind of change, and a
/// summary of the three counts.
pub open spec fn diff_report(result: DiffModel) -> Seq<SpanModel> {
    seq![plain("AICMS Semantic Diff: "@), toned(result.file_path, Tone::Bold), plain("\n\n"@)]
        + kind_section(result.changes, ChangeType::Breaking) + kind_section(
        result.changes,
        ChangeType::Notable,
    ) + kind_section(result.changes, ChangeType::NonBreaking) + seq![
        plain("Summary: "@),
        count_span(result.breaking_count, Tone::RedBold),
        plain(" breaking, "@),
        count_span(result.notable_count, Tone::Yellow),
        plain(" notable, "@ + decimal(result.non_breaking_count) + " non-breaking changes\n"@),
    ]
}

/// The lines of one change.
fn format_change(change: &ContractChange) -> (spans: Vec<Span>)
    ensures
        spans.deep_view() == change_spans(change@),
{
    let mut spans: Vec<Span> = Vec::new();
    assert(spans.deep_view() =~= Seq::<SpanModel>::empty());
    put_str(&mut spans, "  ", Tone::Plain);
    put(&mut spans, change.function_name.clone(), Tone::Cyan);
    put_str(&mut spans, "():\n    - ", Tone::Plain);
    put(&mut spans, change.tag.clone(), Tone::Yellow);
    put(&mut spans, String::from_str(" ").concat(change.description.as_str()), Tone::Plain);
    match change.change_type {
        ChangeType::NonBreaking => {
            put_str(&mut spans, " ", Tone::Plain);
            put_str(&mut spans, "✓", Tone::Green);
        },
        _ => {},
    }
    put_str(&mut spans, "\n", Tone::Plain);
    match &change.old_value {
        Some(old) => {
            put_str(&mut spans, "      Old: ", Tone::Plain);
            put(&mut spans, old.clone(), Tone::Dimmed);
            put_str(&mut spans, "\n", Tone::Plain);
        },
        None => {},
    }
    match &change.new_value {
        Some(new) => {
            let mut text = String::from_str("      New: ");
            text.append(new.as_str());
            text.append("\n");
            put(&mut spans, text, Tone::Plain);
        },
        None => {},
    }
    put_str(&mut spans, "\n", Tone::Plain);
    assert(spans.deep_view() =~= change_spans(change@));
    spans
}

/// The section of the changes of a kind.
fn format_kind(changes: &Vec<ContractChange>, kind: ChangeType) -> (spans: Vec<Span>)
    ensures
        spans.deep_view() == kind_section(changes.deep_view(), kind),
{
    let mut body: Vec<Span> = Vec::new();
    assert(body.deep_view() =~= Seq::<SpanModel>::empty());
    let mut i: usize = 0;
    while i < changes.len()
        invariant
            i <= changes@.len(),
            body.deep_view() == kind_spans(changes.deep_view(), kind, i as int),
        decreases changes@.len() - i,
    {
        assert(changes.deep_view()[i as int] == changes@[i as int]@);
        if changes[i].change_type == kind {
            put_all(&mut body, format_change(&changes[i]));
        }
        i += 1;
    }
    let mut spans: Vec<Span> = Vec::new();
    assert(spans.deep_view() =~= Seq::<SpanModel>::empty());
    if body.len() > 0 {
        match kind {
            ChangeType::Breaking => put_str(&mut spans, "🔴 BREAKING CHANGES", Tone::RedBold),
            ChangeType::Notable => put_str(&mut spans, "🟡 NOTABLE CHANGES", Tone::YellowBold),
            ChangeType::NonBreaking => put_str(
                &mut spans,
                "🟢 NON-BREAKING CHANGES",
                Tone::GreenBold,
            ),
        }
        put_str(&mut spans, "\n", Tone::Plain);
        let ghost head = spans.deep_view();
        assert(head =~= seq![kind_heading(kind), plain("\n"@)]);
        put_all(&mut spans, body);
    }
    spans
}

/// A count in a summary.
fn put_count(spans: &mut Vec<Span>, count: usize, tone: Tone)
    ensures
        final(spans).deep_view() == old(spans).deep_view().push(count_span(count as nat, tone)),
{
    if count > 0 {
        put(spans, decimal_string(count as u64), tone);
    } else {
        put_str(spans, "0", Tone::Plain);
    }
}

/// A diff as a report.
pub fn format_diff_result_text(result: &DiffResult) -> (spans: Vec<Span>)
    ensures
        spans.deep_view() == diff_report(result@),
{
    let mut spans: Vec<Span> = Vec::new();
    assert(spans.deep_view() =~= Seq::<SpanModel>::empty());
    put_str(&mut spans, "AICMS Semantic Diff: ", Tone::Plain);
    put(&mut spans, result.file_path.clone(), Tone::Bold);
    put_str(&mut spans, "\n\n", Tone::Plain);
    let ghost head = spans.deep_view();
    put_all(&mut spans, format_kind(&result.changes, ChangeType::Breaking));
    put_all(&mut spans, format_kind(&result.changes, ChangeType::Notable));
    put_all(&mut spans, format_kind(&result.changes, ChangeType::NonBreaking));
    let ghost body = spans.deep_view();
    put_str(&mut spans, "Summary: ", Tone::Plain);
    put_count(&mut spans, result.breaking_count, Tone::RedBold);
    put_str(&mut spans, " breaking, ", Tone::Plain);
    put_count(&mut spans, result.notable_count, Tone::Yellow);
    let mut tail = String::from_str(" notable, ");
    let others = decimal_string(result.non_breaking_count as u64);
    tail.append(others.as_str());
    tail.append(" non-breaking changes\n");
    put(&mut spans, tail, Tone::Plain);
    assert(spans.deep_view() =~= diff_report(result@));
    spans
}

/// The lines of one function of a parsed file: its name and line, and its
/// intent, effects and confidence where they are recorded.
pub open spec fn function_spans(f: FunctionModel) -> Seq<SpanModel> {
    seq![
        plain("    "@),
        toned(f.name, Tone::Cyan),
        plain(" (line "@ + decimal(f.location.line) + ")\n"@),
    ] + (match f.intent {
        Some(intent) => seq![plain("      intent: "@ + intent + "\n"@)],
        None => seq![],
    }) + (if f.effects.len() > 0 {
        seq![plain("      effects: "@ + joined(f.effects, ", "@) + "\n"@)]
    } else {
        seq![]
    }) + (match f.confidence {
        Some(c) => seq![plain("      confidence: "@ + two_decimals(c) + "\n"@)],
        None => seq![],
    })
}

/// The lines of the first `upto` functions.
pub open spec fn functions_spans(functions: Seq<FunctionModel>, upto: int) -> Seq<SpanModel>
    decreases upto,
{
    if upto <= 0 {
        seq![]
    } else {
        functions_spans(functions, upto - 1) + function_spans(functions[upto - 1])
    }
}

/// The heading of a parsed file: its path and language, the intent and the
/// layer of the module where they are recorded, and the number of functions.
pub open spec fn file_heading(file: ParsedFileModel) -> Seq<SpanModel> {
    seq![toned(file.path, Tone::Bold), plain(" ("@ + file.language + ")\n"@)] + (match file.module.intent {
        Some(intent) => seq![plain("  Module: "@ + intent + "\n"@)],
        None => seq![],
    }) + (match file.module.layer {
        Some(layer) => seq![plain("  Layer: "@ + layer + "\n"@)],
        None => seq![],
    }) + seq![plain("\n  Functions ("@ + decimal(file.module.functions.len()) + "):\n"@)]
}

/// A parsed file as a report.
pub open spec fn file_report(file: ParsedFileModel) -> Seq<SpanModel> {
    file_heading(file) + functions_spans(file.module.functions, file.module.functions.len() as int)
}

/// A plain line made of a lead, a text and a line feed.
fn put_line(spans: &mut Vec<Span>, lead: &str, text: &str)
    ensures
        final(spans).deep_view() == old(spans).deep_view().push(plain(lead@ + text@ + "\n"@)),
{
    let mut line = String::from_str(lead);
    line.append(text);
    line.append("\n");
    put(spans, line, Tone::Plain);
}

/// The lines of one function of a parsed file.
fn format_function(func: &FunctionAnnotations) -> (spans: Vec<Span>)
    ensures
        spans.deep_view() == function_spans(func@),
{
    let mut spans: Vec<Span> = Vec::new();
    assert(spans.deep_view() =~= Seq::<SpanModel>::empty());
    put_str(&mut spans, "    ", Tone::Plain);
    put(&mut spans, func.name.clone(), Tone::Cyan);
    let mut at = String::from_str(" (line ");
    let line = decimal_string(func.location.line as u64);
    at.append(line.as_str());
    at.append(")\n");
    put(&mut spans, at, Tone::Plain);
    match &func.intent {
        Some(intent) => put_line(&mut spans, "      intent: ", intent.as_str()),
        None => {},
    }
    if func.effects.len() > 0 {
        let effects = join(&func.effects, ", ");
        put_line(&mut spans, "      effects: ", effects.as_str());
    }
    match func.confidence {
        Some(confidence) => {
            let text = confidence.to_text();
            put_line(&mut spans, "      confidence: ", text.as_str());
        },
        None => {},
    }
    assert(spans.deep_view() =~= function_spans(func@));
    spans
}

/// A parsed file as a report.
pub fn format_parsed_file_text(file: &ParsedFile) -> (spans: Vec<Span>)
    ensures
        spans.deep_view() == file_report(file@),
{
    let mut spans: Vec<Span> = Vec::new();
    assert(spans.deep_view() =~= Seq::<SpanModel>::empty());
    put(&mut spans, file.path.clone(), Tone::Bold);
    let mut language = String::from_str(" (");
    language.append(file.language.as_str());
    language.append(")\n");
    put(&mut spans, language, Tone::Plain);
    match &file.module.intent {
        Some(intent) => put_line(&mut spans, "  Module: ", intent.as_str()),
        None => {},
    }
    match &file.module.layer {
        Some(layer) => put_line(&mut spans, "  Layer: ", layer.as_str()),
        None => {},
    }
    let mut count = String::from_str("\n  Functions (");
    let number = decimal_string(file.module.functions.len() as u64);
    count.append(number.as_str());
    count.append("):\n");
    put(&mut spans, count, Tone::Plain);
    assert(spans.deep_view() =~= file_heading(file@));
    let ghost functions = file@.module.functions;
    let mut i: usize = 0;
    assert(spans.deep_view() + functions_spans(functions, 0) =~= spans.deep_view());
    while i < file.module.functions.len()
        invariant
            i <= file.module.functions@.len(),
            functions == file.module.functions.deep_view(),
            spans.deep_view() == file_heading(file@) + functions_spans(functions, i as int),
        decreases file.module.functions@.len() - i,
    {
        assert(functions[i as int] == file.module.functions@[i as int]@);
        let ghost before = functions_spans(functions, i as int);
        let more = format_function(&file.module.functions[i]);
        assert((file_heading(file@) + before) + more.deep_view() =~= file_heading(file@) + (before
            + more.deep_view()));
        put_all(&mut spans, more);
        i += 1;
    }
    spans
}

/// The exit code of a lint run: 0 if linting passed, 1 if not.
pub fn lint_exit_code(result: &LintResult) -> (code: u8)
    ensures
        code == if result@.errors == 0 {
            0u8
        } else {
            1u8
        },
{
    if result.passed() {
        0
    } else {
        1
    }
}

/// The exit code of a diff run: 1 if breaking changes were found and are to
/// fail the run, 0 otherwise.
pub fn diff_exit_code(result: &DiffResult, fail_on_breaking: bool) -> (code: u8)
    ensures
        code == if fail_on_breaking && result@.breaking_count > 0 {
            1u8
        } else {
            0u8
        },
{
    if fail_on_breaking && result.has_breaking_changes() {
        1
    } else {
        0
    }
}

} // verus!
