//! The linter: rules that read the annotation model and report what is
//! missing or doubtful. It never changes the model.

use crate::annotation::{FunctionAnnotations, FunctionModel, Location, LocationModel, ParsedFile, ParsedFileModel};
use crate::confidence::{two_decimals, Confidence};
use crate::error::{message_of, Error, ErrorModel};
use crate::extractor::{extract_file, extracted_file, place};
use vstd::prelude::*;
use vstd::string::StringExecFns;

verus! {

/// How serious a lint issue is.
#[derive(Debug, Clone, Copy, PartialEq, Eq, Structural)]
pub enum Severity {
    Error,
    Warning,
    Info,
}

impl Default for Severity {
    fn default() -> (s: Severity)
        ensures
            s == Severity::Warning,
    {
        Severity::Warning
    }
}

/// One finding of the linter.
#[derive(Debug, Clone)]
pub struct LintIssue {
    pub severity: Severity,
    pub code: String,
    pub message: String,
    pub location: Location,
    pub suggestion: Option<String>,
}

/// A lint issue as plain values.
pub struct IssueModel {
    pub severity: Severity,
    pub code: Seq<char>,
    pub message: Seq<char>,
    pub location: LocationModel,
    pub suggestion: Option<Seq<char>>,
}

impl View for LintIssue {
    type V = IssueModel;

    open spec fn view(&self) -> IssueModel {
        IssueModel {
            severity: self.severity,
            code: self.code@,
            message: self.message@,
            location: self.location@,
            suggestion: self.suggestion.deep_view(),
        }
    }
}

impl DeepView for LintIssue {
    type V = IssueModel;

    open spec fn deep_view(&self) -> IssueModel {
        self@
    }
}

/// Which rules the linter applies.
#[derive(Debug, Clone, Copy)]
pub struct LintConfig {
    pub require_intent: bool,
    pub require_module_intent: bool,
    pub require_effects_for_impure: bool,
    pub warn_low_confidence: bool,
    pub confidence_threshold: Confidence,
}

impl Default for LintConfig {
    fn default() -> (config: LintConfig)
        ensures
            !config.require_intent,
            !config.require_module_intent,
            !config.require_effects_for_impure,
            !config.warn_low_confidence,
            config.confidence_threshold@ == 0,
    {
        LintConfig {
            require_intent: false,
            require_module_intent: false,
            require_effects_for_impure: false,
            warn_low_confidence: false,
            confidence_threshold: Confidence { micros: 0 },
        }
    }
}

impl LintConfig {
    /// The configuration that applies every rule, with a confidence
    /// threshold of seven tenths.
    pub fn strict() -> (config: LintConfig)
        ensures
            config.require_intent,
            config.require_module_intent,
            config.require_effects_for_impure,
            config.warn_low_confidence,
            config.confidence_threshold@ == 700_000,
    {
        LintConfig {
            require_intent: true,
            require_module_intent: true,
            require_effects_for_impure: true,
            warn_low_confidence: true,
            confidence_threshold: Confidence { micros: 700_000 },
        }
    }
}

/// What linting found, with a count of the errors and of the warnings.
#[derive(Debug, Clone)]
pub struct LintResult {
    pub files_checked: usize,
    pub functions_checked: usize,
    pub issues: Vec<LintIssue>,
    pub errors: usize,
    pub warnings: usize,
}

/// A lint result as plain values.
pub struct LintModel {
    pub files_checked: nat,
    pub functions_checked: nat,
    pub issues: Seq<IssueModel>,
    pub errors: nat,
    pub warnings: nat,
}

impl View for LintResult {
    type V = LintModel;

    open spec fn view(&self) -> LintModel {
        LintModel {
            files_checked: self.files_checked as nat,
            functions_checked: self.functions_checked as nat,
            issues: self.issues.deep_view(),
            errors: self.errors as nat,
            warnings: self.warnings as nat,
        }
    }
}

/// How many of `issues` are of the severity `severity`.
pub open spec fn count_severity(issues: Seq<IssueModel>, severity: Severity) -> nat
    decreases issues.len(),
{
    if issues.len() == 0 {
        0
    } else {
        count_severity(issues.drop_last(), severity) + if issues.last().severity == severity {
            1nat
        } else {
            0nat
        }
    }
}

/// The result that holds `issues`, with its errors and warnings counted.
pub open spec fn tallied(files: nat, functions: nat, issues: Seq<IssueModel>) -> LintModel {
    LintModel {
        files_checked: files,
        functions_checked: functions,
        issues,
        errors: count_severity(issues, Severity::Error),
        warnings: count_severity(issues, Severity::Warning),
    }
}

/// No severity counts more issues than there are.
pub proof fn lemma_severity_bounded(issues: Seq<IssueModel>, severity: Severity)
    ensures
        count_severity(issues, severity) <= issues.len(),
    decreases issues.len(),
{
    if issues.len() > 0 {
        lemma_severity_bounded(issues.drop_last(), severity);
    }
}

/// Counting runs over a concatenation part by part.
pub proof fn lemma_severity_concat(a: Seq<IssueModel>, b: Seq<IssueModel>, severity: Severity)
    ensures
        count_severity(a + b, severity) == count_severity(a, severity) + count_severity(b, severity),
    decreases b.len(),
{
    if b.len() == 0 {
        assert(a + b =~= a);
    } else {
        assert((a + b).drop_last() =~= a + b.drop_last());
        lemma_severity_concat(a, b.drop_last(), severity);
    }
}

/// The issue that reports a module without an intent.
pub open spec fn missing_module_intent(path: Seq<char>) -> IssueModel {
    IssueModel {
        severity: Severity::Warning,
        code: "W001"@,
        message: "Module missing @ai:module:intent annotation"@,
        location: place(path, 1),
        suggestion: Some("Add //! @ai:module:intent <description>"@),
    }
}

/// The issue that reports a function without an intent.
pub open spec fn missing_intent(f: FunctionModel) -> IssueModel {
    IssueModel {
        severity: Severity::Error,
        code: "E001"@,
        message: "Function `"@ + f.name + "` missing @ai:intent annotation"@,
        location: f.location,
        suggestion: Some("Add /// @ai:intent <description> before `"@ + f.name + "`"@),
    }
}

/// The issue that reports a confidence below the threshold, both given in
/// millionths.
pub open spec fn low_confidence(f: FunctionModel, confidence: int, threshold: int) -> IssueModel {
    IssueModel {
        severity: Severity::Warning,
        code: "W002"@,
        message: "Function `"@ + f.name + "` has low confidence ("@ + two_decimals(confidence)
            + " < "@ + two_decimals(threshold) + ")"@,
        location: f.location,
        suggestion: Some("Consider reviewing and improving confidence"@),
    }
}

/// The issue that passes on a note of a function: a request for review, or
/// for an integration test.
pub open spec fn noted(f: FunctionModel, code: Seq<char>, what: Seq<char>, note: Seq<char>) -> IssueModel {
    IssueModel {
        severity: Severity::Info,
        code,
        message: "Function `"@ + f.name + what + note,
        location: f.location,
        suggestion: None,
    }
}

/// The issues of the module itself.
pub open spec fn module_issues(file: ParsedFileModel, config: LintConfig) -> Seq<IssueModel> {
    if config.require_module_intent && file.module.intent.is_none() {
        seq![missing_module_intent(file.path)]
    } else {
        seq![]
    }
}

/// The issue for a missing intent, if the rule applies.
pub open spec fn intent_issues(f: FunctionModel, config: LintConfig) -> Seq<IssueModel> {
    if config.require_intent && f.intent.is_none() {
        seq![missing_intent(f)]
    } else {
        seq![]
    }
}

/// The issue for a low confidence, if the rule applies.
pub open spec fn confidence_issues(f: FunctionModel, config: LintConfig) -> Seq<IssueModel> {
    match f.confidence {
        Some(c) => if config.warn_low_confidence && c < config.confidence_threshold@ {
            seq![low_confidence(f, c, config.confidence_threshold@)]
        } else {
            seq![]
        },
        None => seq![],
    }
}

/// The issue for a request for review.
pub open spec fn review_issues(f: FunctionModel) -> Seq<IssueModel> {
    match f.needs_review {
        Some(note) => seq![noted(f, "I001"@, "` flagged for review: "@, note)],
        None => seq![],
    }
}

/// The issue for a request for an integration test.
pub open spec fn integration_issues(f: FunctionModel) -> Seq<IssueModel> {
    match f.test_integration {
        Some(note) => seq![noted(f, "I002"@, "` requires integration test: "@, note)],
        None => seq![],
    }
}

/// The issues of one function, in the order of the rules.
pub open spec fn function_issues(f: FunctionModel, config: LintConfig) -> Seq<IssueModel> {
    intent_issues(f, config) + confidence_issues(f, config) + review_issues(f) + integration_issues(f)
}

/// The issues of the first `upto` functions.
pub open spec fn functions_issues(functions: Seq<FunctionModel>, config: LintConfig, upto: int) -> Seq<
    IssueModel,
>
    decreases upto,
{
    if upto <= 0 {
        seq![]
    } else {
        functions_issues(functions, config, upto - 1) + function_issues(functions[upto - 1], config)
    }
}

/// What linting a parsed file gives: the issue of the module, then the
/// issues of each function in order.
pub open spec fn lint_of(file: ParsedFileModel, config: LintConfig) -> LintModel {
    tallied(
        1,
        file.module.functions.len(),
        module_issues(file, config) + functions_issues(
            file.module.functions,
            config,
            file.module.functions.len() as int,
        ),
    )
}

/// The issue that reports a file that could not be linted.
pub open spec fn failure_issue(path: Seq<char>, error: ErrorModel) -> IssueModel {
    IssueModel {
        severity: Severity::Error,
        code: "E000"@,
        message: "Failed to parse file: "@ + message_of(error),
        location: place(path, 0),
        suggestion: None,
    }
}

impl LintResult {
    /// Whether the two counts are the numbers of errors and of warnings
    /// among the issues.
    pub open spec fn wf(&self) -> bool {
        self@ == tallied(self@.files_checked, self@.functions_checked, self@.issues)
    }

    /// The result of linting nothing.
    pub fn new() -> (r: LintResult)
        ensures
            r@ == tallied(0, 0, seq![]),
            r.wf(),
    {
        let r = LintResult {
            files_checked: 0,
            functions_checked: 0,
            issues: Vec::new(),
            errors: 0,
            warnings: 0,
        };
        assert(r@.issues =~= Seq::<IssueModel>::empty());
        r
    }

    /// Whether linting passed: no error was found.
    pub fn passed(&self) -> (b: bool)
        ensures
            b == (self@.errors == 0),
    {
        self.errors == 0
    }

    /// Appends an issue, and counts it if it is an error or a warning.
    pub fn add_issue(&mut self, issue: LintIssue)
        requires
            old(self).wf(),
        ensures
            final(self).wf(),
            final(self)@.files_checked == old(self)@.files_checked,
            final(self)@.functions_checked == old(self)@.functions_checked,
            final(self)@.issues == old(self)@.issues.push(issue@),
    {
        let ghost before = self@.issues;
        let severity = issue.severity;
        self.issues.push(issue);
        let held = self.issues.len();
        proof {
            assert(held == before.len() + 1);
            assert(self.issues.deep_view() =~= before.push(issue@));
            assert(before.push(issue@).drop_last() =~= before);
            lemma_severity_bounded(before, Severity::Error);
            lemma_severity_bounded(before, Severity::Warning);
        }
        match severity {
            Severity::Error => {
                self.errors = self.errors + 1;
            },
            Severity::Warning => {
                self.warnings = self.warnings + 1;
            },
            Severity::Info => {},
        }
    }

    /// Takes the findings of `other` into this result: the counts add up
    /// and the issues of `other` follow those already held.
    pub fn merge(&mut self, other: LintResult)
        requires
            old(self)@.files_checked + other@.files_checked <= usize::MAX,
            old(self)@.functions_checked + other@.functions_checked <= usize::MAX,
            old(self)@.errors + other@.errors <= usize::MAX,
            old(self)@.warnings + other@.warnings <= usize::MAX,
        ensures
            final(self)@ == (LintModel {
                files_checked: old(self)@.files_checked + other@.files_checked,
                functions_checked: old(self)@.functions_checked + other@.functions_checked,
                issues: old(self)@.issues + other@.issues,
                errors: old(self)@.errors + other@.errors,
                warnings: old(self)@.warnings + other@.warnings,
            }),
            old(self).wf() && other.wf() ==> final(self).wf(),
    {
        let mut other = other;
        let ghost mine = self@.issues;
        let ghost theirs = other@.issues;
        self.files_checked = self.files_checked + other.files_checked;
        self.functions_checked = self.functions_checked + other.functions_checked;
        self.issues.append(&mut other.issues);
        self.errors = self.errors + other.errors;
        self.warnings = self.warnings + other.warnings;
        proof {
            assert(self.issues.deep_view() =~= mine + theirs);
            lemma_severity_concat(mine, theirs, Severity::Error);
            lemma_severity_concat(mine, theirs, Severity::Warning);
        }
    }

    /// Records that the file at `path` could not be linted.
    pub fn report_failure(&mut self, path: &str, error: &Error)
        requires
            old(self).wf(),
        ensures
            final(self).wf(),
            final(self)@.files_checked == old(self)@.files_checked,
            final(self)@.functions_checked == old(self)@.functions_checked,
            final(self)@.issues == old(self)@.issues.push(failure_issue(path@, error@)),
    {
        let described = error.message();
        self.add_issue(
            LintIssue {
                severity: Severity::Error,
                code: String::from_str("E000"),
                message: String::from_str("Failed to parse file: ").concat(described.as_str()),
                location: Location::new(String::from_str(path), 0),
                suggestion: None,
            },
        );
    }
}

impl Default for LintResult {
    fn default() -> (r: LintResult)
        ensures
            r@ == tallied(0, 0, seq![]),
            r.wf(),
    {
        LintResult::new()
    }
}

/// Appends the issues of one function.
fn lint_function(result: &mut LintResult, func: &FunctionAnnotations, config: &LintConfig)
    requires
        old(result).wf(),
    ensures
        final(result).wf(),
        final(result)@.files_checked == old(result)@.files_checked,
        final(result)@.functions_checked == old(result)@.functions_checked,
        final(result)@.issues == old(result)@.issues + function_issues(func@, *config),
{
    let ghost start = result@.issues;
    let name = func.name.as_str();
    if config.require_intent && func.intent.is_none() {
        let mut message = String::from_str("Function `");
        message.append(name);
        message.append("` missing @ai:intent annotation");
        let mut suggestion = String::from_str("Add /// @ai:intent <description> before `");
        suggestion.append(name);
        suggestion.append("`");
        result.add_issue(
            LintIssue {
                severity: Severity::Error,
                code: String::from_str("E001"),
                message,
                location: func.location.clone(),
                suggestion: Some(suggestion),
            },
        );
    }
    let ghost s1 = result@.issues;
    assert(s1 =~= start + intent_issues(func@, *config));
    if config.warn_low_confidence {
        match func.confidence {
            Some(confidence) => {
                if confidence.below(&config.confidence_threshold) {
                    let held = confidence.to_text();
                    let asked = config.confidence_threshold.to_text();
                    let mut message = String::from_str("Function `");
                    message.append(name);
                    message.append("` has low confidence (");
                    message.append(held.as_str());
                    message.append(" < ");
                    message.append(asked.as_str());
                    message.append(")");
                    result.add_issue(
                        LintIssue {
                            severity: Severity::Warning,
                            code: String::from_str("W002"),
                            message,
                            location: func.location.clone(),
                            suggestion: Some(
                                String::from_str("Consider reviewing and improving confidence"),
                            ),
                        },
                    );
                }
            },
            None => {},
        }
    }
    let ghost s2 = result@.issues;
    assert(s2 =~= s1 + confidence_issues(func@, *config));
    match &func.needs_review {
        Some(note) => {
            let mut message = String::from_str("Function `");
            message.append(name);
            message.append("` flagged for review: ");
            message.append(note.as_str());
            result.add_issue(
                LintIssue {
                    severity: Severity::Info,
                    code: String::from_str("I001"),
                    message,
                    location: func.location.clone(),
                    suggestion: None,
                },
            );
        },
        None => {},
    }
    let ghost s3 = result@.issues;
    assert(s3 =~= s2 + review_issues(func@));
    match &func.test_integration {
        Some(note) => {
            let mut message = String::from_str("Function `");
            message.append(name);
            message.append("` requires integration test: ");
            message.append(note.as_str());
            result.add_issue(
                LintIssue {
                    severity: Severity::Info,
                    code: String::from_str("I002"),
                    message,
                    location: func.location.clone(),
                    suggestion: None,
                },
            );
        },
        None => {},
    }
    assert(result@.issues =~= s3 + integration_issues(func@));
    assert(result@.issues =~= start + function_issues(func@, *config));
}

/// Lints a parsed file.
pub fn lint_parsed_file(parsed: &ParsedFile, config: &LintConfig) -> (result: LintResult)
    ensures
        result@ == lint_of(parsed@, *config),
        result.wf(),
{
    let mut result = LintResult::new();
    result.files_checked = 1;
    result.functions_checked = parsed.module.functions.len();
    if config.require_module_intent && parsed.module.intent.is_none() {
        result.add_issue(
            LintIssue {
                severity: Severity::Warning,
                code: String::from_str("W001"),
                message: String::from_str("Module missing @ai:module:intent annotation"),
                location: Location::new(parsed.path.clone(), 1),
                suggestion: Some(String::from_str("Add //! @ai:module:intent <description>")),
            },
        );
    }
    let ghost functions = parsed@.module.functions;
    let ghost first = module_issues(parsed@, *config);
    assert(result@.issues =~= first + functions_issues(functions, *config, 0));
    let mut k: usize = 0;
    while k < parsed.module.functions.len()
        invariant
            k <= parsed.module.functions@.len(),
            functions == parsed.module.functions.deep_view(),
            result.wf(),
            result@.files_checked == 1,
            result@.functions_checked == functions.len(),
            result@.issues == first + functions_issues(functions, *config, k as int),
        decreases parsed.module.functions@.len() - k,
    {
        let func = &parsed.module.functions[k];
        assert(functions[k as int] == func@);
        let ghost before = functions_issues(functions, *config, k as int);
        lint_function(&mut result, func, config);
        assert((first + before) + function_issues(func@, *config) =~= first + (before
            + function_issues(func@, *config)));
        k += 1;
    }
    result
}

/// Lints the file at `path`, whose text is `content`. The path decides the
/// language; a path that stands for no supported language is the only
/// failure.
pub fn lint_file(path: &str, content: &str, config: &LintConfig) -> (r: Result<LintResult, Error>)
    ensures
        match extracted_file(path@, content@) {
            Ok(file) => r matches Ok(result) && result@ == lint_of(file, *config) && result.wf(),
            Err(e) => r matches Err(x) && x@ == e,
        },
{
    match extract_file(path, content) {
        Ok(parsed) => Ok(lint_parsed_file(&parsed, config)),
        Err(e) => Err(e),
    }
}

} // verus!
