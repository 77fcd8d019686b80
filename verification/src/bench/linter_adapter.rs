//! A linter for annotations in generated code: which tags are known, which
//! values are allowed, and how many annotations are in order.
//!
//! Counts and line numbers are 32 bits wide and stay at the largest value
//! once they reach it.

use crate::confidence::{micros_of, Confidence};
use crate::extractor::{split_list, trimmed_parts};
use crate::pattern::{all_captures_of, captures_all_each, group_or_empty, group_text};
use crate::text::{equals, has_prefix, lines, lines_of, starts_with, trim, trimmed};
use vstd::prelude::*;
use vstd::string::StringExecFns;

verus! {

/// How serious an issue is.
#[derive(Debug, Clone, Copy, PartialEq, Eq, Structural)]
pub enum Severity {
    Error,
    Warning,
    Info,
}

/// An issue found in the annotations of a code.
#[derive(Debug, Clone)]
pub struct LintIssue {
    pub severity: Severity,
    pub message: String,
    pub line: Option<u32>,
}

/// An issue as plain values.
pub struct IssueModel {
    pub severity: Severity,
    pub message: Seq<char>,
    pub line: Option<u32>,
}

impl View for LintIssue {
    type V = IssueModel;

    open spec fn view(&self) -> IssueModel {
        IssueModel { severity: self.severity, message: self.message@, line: self.line }
    }
}

impl DeepView for LintIssue {
    type V = IssueModel;

    open spec fn deep_view(&self) -> IssueModel {
        self@
    }
}

/// What linting the annotations of a code found.
#[derive(Debug, Clone)]
pub struct LintResult {
    pub issues: Vec<LintIssue>,
    pub annotation_count: u32,
    pub valid_annotation_count: u32,
}

/// Something that lints the annotations of a code.
pub trait LinterAdapterTrait {
    /// Lints the annotations of a code.
    fn lint(&self, code: &str) -> LintResult;
}

/// The linter for annotations in generated code.
#[derive(Debug, Clone, Copy)]
pub struct LinterAdapter;

/// The pattern of an annotation: its tag, which may have several parts
/// joined by colons, and its value, which may be missing.
pub open spec fn annotation_pattern() -> Seq<char> {
    r"@ai:(\w+(?::\w+)*)(?:\s+(.*))?"@
}

/// The tags that are known, apart from those that begin with `override:`.
pub open spec fn known_tags() -> Seq<Seq<char>> {
    seq![
        "intent"@,
        "pre"@,
        "post"@,
        "invariant"@,
        "example"@,
        "effects"@,
        "idempotent"@,
        "retry_safe"@,
        "confidence"@,
        "needs_review"@,
        "author"@,
        "verified"@,
        "assumes"@,
        "context"@,
        "related"@,
        "deprecated"@,
        "complexity"@,
        "edge_cases"@,
        "override"@,
        "constraint"@,
        "test:integration"@,
        "module:intent"@,
        "module:layer"@,
        "module:bounded_context"@,
        "module:public_api"@,
        "module:depends_on"@,
        "module:depended_by"@,
        "module:internal"@,
        "module:stateless"@,
        "module:thread_safe"@,
        "module:cohesion"@,
        "module:stability"@,
        "project:max_function_lines"@,
        "project:max_file_lines"@,
        "project:max_functions_per_file"@,
        "project:max_structs_per_module"@,
        "project:max_params"@,
        "project:max_return_values"@,
        "project:max_nesting_depth"@,
        "project:max_cyclomatic_complexity"@,
        "project:extract_repeated_code"@,
        "project:require_interface_for_deps"@,
        "project:single_responsibility"@,
        "project:prefer_composition"@,
        "project:no_god_objects"@,
        "project:no_primitive_obsession"@,
        "project:immutable_by_default"@,
        "project:architecture"@,
        "project:layers"@,
        "project:dependency_rule"@,
        "project:error_strategy"@,
        "project:require_error_types"@,
        "project:no_panic"@,
        "project:min_coverage"@,
        "project:unit_tests"@,
        "project:integration_tests"@,
        "project:integration_tests_tools"@,
        "project:test_naming"@,
    ]
}

/// The effects that are known.
pub open spec fn known_effects() -> Seq<Seq<char>> {
    seq![
        "pure"@,
        "io"@,
        "db:read"@,
        "db:write"@,
        "network"@,
        "fs:read"@,
        "fs:write"@,
        "env"@,
        "state:read"@,
        "state:write"@,
        "random"@,
        "time"@,
    ]
}

/// Whether a tag is known: it is listed, or begins with `override:`.
pub open spec fn is_known_tag(tag: Seq<char>) -> bool {
    known_tags().contains(tag) || has_prefix(tag, "override:"@)
}

/// The first of `effects[from..]` that is not known.
pub open spec fn first_unknown_effect(effects: Seq<Seq<char>>, from: int) -> Option<Seq<char>>
    decreases effects.len() - from,
{
    if from < 0 || from >= effects.len() {
        None
    } else if !known_effects().contains(effects[from]) {
        Some(effects[from])
    } else {
        first_unknown_effect(effects, from + 1)
    }
}

/// The issue with a list of effects: its first effect that is not known.
pub open spec fn effects_issue(value: Seq<char>) -> Option<IssueModel> {
    match first_unknown_effect(trimmed_parts(value), 0) {
        Some(effect) => Some(
            IssueModel { severity: Severity::Warning, message: "Unknown effect: "@ + effect, line: None },
        ),
        None => None,
    }
}

/// The issue with a confidence: it is no numeral, or it does not lie
/// between zero and one.
pub open spec fn confidence_issue(value: Seq<char>) -> Option<IssueModel> {
    match micros_of(value) {
        Some(m) => if 0 <= m <= 1_000_000 {
            None
        } else {
            Some(
                IssueModel {
                    severity: Severity::Error,
                    message: "Confidence must be between 0.0 and 1.0, got "@ + value,
                    line: None,
                },
            )
        },
        None => Some(
            IssueModel {
                severity: Severity::Error,
                message: "Invalid confidence value: "@ + value,
                line: None,
            },
        ),
    }
}

/// A count raised by one, unless it is at its largest value.
pub open spec fn bumped(n: u32) -> u32 {
    if n < u32::MAX {
        (n + 1) as u32
    } else {
        n
    }
}

/// The number of the line at position `index`, counted from 1.
pub open spec fn line_number(index: nat) -> u32 {
    if index < u32::MAX {
        (index + 1) as u32
    } else {
        u32::MAX
    }
}

/// What linting has found so far.
pub struct LintState {
    pub issues: Seq<IssueModel>,
    pub annotation_count: u32,
    pub valid_count: u32,
    pub has_intent: bool,
}

/// The state with one more annotation counted and an issue about it.
pub open spec fn rejected(state: LintState, issue: IssueModel, line: u32, has_intent: bool) -> LintState {
    LintState {
        issues: state.issues.push(
            IssueModel { severity: issue.severity, message: issue.message, line: Some(line) },
        ),
        annotation_count: bumped(state.annotation_count),
        valid_count: state.valid_count,
        has_intent,
    }
}

/// Whether a tag states an intent, of a function or of a module.
pub open spec fn states_intent(tag: Seq<char>) -> bool {
    tag == "intent"@ || tag == "module:intent"@
}

/// The issue with an annotation, if there is one: an unknown tag, an
/// intent without a value, an unknown effect, or a confidence out of range.
pub open spec fn annotation_issue(tag: Seq<char>, value: Seq<char>) -> Option<IssueModel> {
    if !is_known_tag(tag) {
        Some(
            IssueModel {
                severity: Severity::Error,
                message: "Unknown annotation tag: @ai:"@ + tag,
                line: None,
            },
        )
    } else if states_intent(tag) && value.len() == 0 {
        Some(
            IssueModel {
                severity: Severity::Error,
                message: "Intent annotation must have a value"@,
                line: None,
            },
        )
    } else if tag == "effects"@ {
        effects_issue(value)
    } else if tag == "confidence"@ {
        confidence_issue(value)
    } else {
        None
    }
}

/// The state after one annotation on line `line`: it is counted, and is
/// either in order or the subject of an issue. An annotation with a known
/// tag that states an intent is remembered.
pub open spec fn lint_match(state: LintState, groups: Seq<Option<Seq<char>>>, line: u32) -> LintState {
    let tag = group_or_empty(groups, 1);
    let value = trimmed(group_or_empty(groups, 2));
    let has_intent = state.has_intent || (is_known_tag(tag) && states_intent(tag));
    match annotation_issue(tag, value) {
        Some(issue) => rejected(state, issue, line, has_intent),
        None => LintState {
            issues: state.issues,
            annotation_count: bumped(state.annotation_count),
            valid_count: bumped(state.valid_count),
            has_intent,
        },
    }
}

/// The state after the first `upto` annotations of a line.
pub open spec fn lint_matches(
    state: LintState,
    matches: Seq<Seq<Option<Seq<char>>>>,
    line: u32,
    upto: int,
) -> LintState
    decreases upto,
{
    if upto <= 0 {
        state
    } else {
        lint_match(lint_matches(state, matches, line, upto - 1), matches[upto - 1], line)
    }
}

/// The state after the first `upto` lines.
pub open spec fn lint_lines(lines: Seq<Seq<char>>, upto: int) -> LintState
    decreases upto,
{
    if upto <= 0 {
        LintState { issues: seq![], annotation_count: 0, valid_count: 0, has_intent: false }
    } else {
        let matches = all_captures_of(annotation_pattern(), lines[upto - 1]);
        lint_matches(
            lint_lines(lines, upto - 1),
            matches,
            line_number((upto - 1) as nat),
            matches.len() as int,
        )
    }
}

/// The issues of a code: those of its annotations, and a warning at the end
/// if it has annotations but none states an intent.
pub open spec fn lint_issues(state: LintState) -> Seq<IssueModel> {
    if state.annotation_count > 0 && !state.has_intent {
        state.issues.push(
            IssueModel {
                severity: Severity::Warning,
                message: "Missing @ai:intent annotation (required for all functions)"@,
                line: None,
            },
        )
    } else {
        state.issues
    }
}

/// Whether `list` holds `item`.
fn holds(list: &Vec<&'static str>, item: &str) -> (b: bool)
    ensures
        b == list.deep_view().contains(item@),
{
    let mut i: usize = 0;
    while i < list.len()
        invariant
            i <= list@.len(),
            forall|j: int| 0 <= j < i ==> list.deep_view()[j] != item@,
        decreases list@.len() - i,
    {
        if equals(list[i], item) {
            assert(list.deep_view()[i as int] == item@);
            return true;
        }
        i += 1;
    }
    false
}

/// A count raised by one, unless it is at its largest value.
fn bump(n: u32) -> (m: u32)
    ensures
        m == bumped(n),
{
    if n < u32::MAX {
        n + 1
    } else {
        n
    }
}

/// An issue that names no line.
fn issue(severity: Severity, message: String) -> (i: LintIssue)
    ensures
        i@ == (IssueModel { severity, message: message@, line: None }),
{
    LintIssue { severity, message, line: None }
}

impl LinterAdapter {
    /// The linter.
    pub fn new() -> (linter: LinterAdapter) {
        LinterAdapter
    }

    /// The tags that are known.
    pub fn valid_tags() -> (tags: Vec<&'static str>)
        ensures
            tags.deep_view() == known_tags(),
    {
        let tags = vec![
            "intent",
            "pre",
            "post",
            "invariant",
            "example",
            "effects",
            "idempotent",
            "retry_safe",
            "confidence",
            "needs_review",
            "author",
            "verified",
            "assumes",
            "context",
            "related",
            "deprecated",
            "complexity",
            "edge_cases",
            "override",
            "constraint",
            "test:integration",
            "module:intent",
            "module:layer",
            "module:bounded_context",
            "module:public_api",
            "module:depends_on",
            "module:depended_by",
            "module:internal",
            "module:stateless",
            "module:thread_safe",
            "module:cohesion",
            "module:stability",
            "project:max_function_lines",
            "project:max_file_lines",
            "project:max_functions_per_file",
            "project:max_structs_per_module",
            "project:max_params",
            "project:max_return_values",
            "project:max_nesting_depth",
            "project:max_cyclomatic_complexity",
            "project:extract_repeated_code",
            "project:require_interface_for_deps",
            "project:single_responsibility",
            "project:prefer_composition",
            "project:no_god_objects",
            "project:no_primitive_obsession",
            "project:immutable_by_default",
            "project:architecture",
            "project:layers",
            "project:dependency_rule",
            "project:error_strategy",
            "project:require_error_types",
            "project:no_panic",
            "project:min_coverage",
            "project:unit_tests",
            "project:integration_tests",
            "project:integration_tests_tools",
            "project:test_naming",
        ];
        assert(tags.deep_view() =~= known_tags());
        tags
    }

    /// The effects that are known.
    pub fn valid_effects() -> (effects: Vec<&'static str>)
        ensures
            effects.deep_view() == known_effects(),
    {
        let effects = vec![
            "pure",
            "io",
            "db:read",
            "db:write",
            "network",
            "fs:read",
            "fs:write",
            "env",
            "state:read",
            "state:write",
            "random",
            "time",
        ];
        assert(effects.deep_view() =~= known_effects());
        effects
    }

    /// Whether a tag is known.
    pub fn is_valid_tag(&self, tag: &str) -> (b: bool)
        ensures
            b == is_known_tag(tag@),
    {
        let tags = LinterAdapter::valid_tags();
        holds(&tags, tag) || starts_with(tag, "override:")
    }

    /// The issue with a list of effects, if there is one.
    pub fn validate_effects(&self, value: &str) -> (found: Option<LintIssue>)
        ensures
            found.deep_view() == effects_issue(value@),
    {
        let known = LinterAdapter::valid_effects();
        let effects = split_list(value);
        let mut i: usize = 0;
        while i < effects.len()
            invariant
                i <= effects@.len(),
                known.deep_view() == known_effects(),
                effects.deep_view() == trimmed_parts(value@),
                first_unknown_effect(effects.deep_view(), 0) == first_unknown_effect(
                    effects.deep_view(),
                    i as int,
                ),
            decreases effects@.len() - i,
        {
            assert(effects.deep_view()[i as int] == effects@[i as int]@);
            if !holds(&known, effects[i].as_str()) {
                return Some(
                    issue(
                        Severity::Warning,
                        String::from_str("Unknown effect: ").concat(effects[i].as_str()),
                    ),
                );
            }
            i += 1;
        }
        None
    }

    /// The issue with a confidence, if there is one.
    pub fn validate_confidence(&self, value: &str) -> (found: Option<LintIssue>)
        ensures
            found.deep_view() == confidence_issue(value@),
    {
        match Confidence::parse(value) {
            Some(confidence) => {
                if 0 <= confidence.micros && confidence.micros <= 1_000_000 {
                    None
                } else {
                    Some(
                        issue(
                            Severity::Error,
                            String::from_str("Confidence must be between 0.0 and 1.0, got ").concat(
                                value,
                            ),
                        ),
                    )
                }
            },
            None => Some(
                issue(Severity::Error, String::from_str("Invalid confidence value: ").concat(value)),
            ),
        }
    }

    /// The issue with an annotation, if there is one.
    pub fn check_annotation(&self, tag: &str, value: &str) -> (found: Option<LintIssue>)
        ensures
            found.deep_view() == annotation_issue(tag@, value@),
    {
        if !self.is_valid_tag(tag) {
            Some(issue(Severity::Error, String::from_str("Unknown annotation tag: @ai:").concat(tag)))
        } else if (equals(tag, "intent") || equals(tag, "module:intent")) && value.is_empty() {
            Some(issue(Severity::Error, String::from_str("Intent annotation must have a value")))
        } else if equals(tag, "effects") {
            self.validate_effects(value)
        } else if equals(tag, "confidence") {
            self.validate_confidence(value)
        } else {
            None
        }
    }

    /// Lints the annotations of a code, line by line.
    pub fn lint_code(&self, code: &str) -> (result: LintResult)
        ensures
            ({
                let state = lint_lines(lines_of(code@), lines_of(code@).len() as int);
                &&& result.issues.deep_view() == lint_issues(state)
                &&& result.annotation_count == state.annotation_count
                &&& result.valid_annotation_count == state.valid_count
            }),
    {
        let all = lines(code);
        let found = captures_all_each(r"@ai:(\w+(?::\w+)*)(?:\s+(.*))?", &all);
        let mut issues: Vec<LintIssue> = Vec::new();
        let mut annotation_count: u32 = 0;
        let mut valid_count: u32 = 0;
        let mut has_intent = false;
        assert(issues.deep_view() =~= Seq::<IssueModel>::empty());
        let mut k: usize = 0;
        while k < all.len()
            invariant
                k <= all@.len(),
                found@.len() == all@.len(),
                forall|i: int|
                    0 <= i < all@.len() ==> (#[trigger] found@[i]).deep_view() == all_captures_of(
                        annotation_pattern(),
                        all@[i]@,
                    ),
                all.deep_view() == lines_of(code@),
                (LintState {
                    issues: issues.deep_view(),
                    annotation_count,
                    valid_count,
                    has_intent,
                }) == lint_lines(all.deep_view(), k as int),
            decreases all@.len() - k,
        {
            assert(all.deep_view()[k as int] == all@[k as int]@);
            let line: u32 = if k < 4_294_967_295 {
                (k + 1) as u32
            } else {
                4_294_967_295
            };
            let matches = &found[k];
            let ghost start = lint_lines(all.deep_view(), k as int);
            let mut j: usize = 0;
            while j < matches.len()
                invariant
                    j <= matches@.len(),
                    line == line_number(k as nat),
                    (LintState {
                        issues: issues.deep_view(),
                        annotation_count,
                        valid_count,
                        has_intent,
                    }) == lint_matches(start, matches.deep_view(), line, j as int),
                decreases matches@.len() - j,
            {
                assert(matches.deep_view()[j as int] == matches@[j as int].deep_view());
                let tag = group_text(&matches[j], 1);
                let raw = group_text(&matches[j], 2);
                let value = trim(raw.as_str());
                annotation_count = bump(annotation_count);
                if self.is_valid_tag(tag.as_str()) && (equals(tag.as_str(), "intent") || equals(
                    tag.as_str(),
                    "module:intent",
                )) {
                    has_intent = true;
                }
                match self.check_annotation(tag.as_str(), value.as_str()) {
                    Some(found) => {
                        let ghost before = issues.deep_view();
                        let placed = LintIssue {
                            severity: found.severity,
                            message: found.message,
                            line: Some(line),
                        };
                        issues.push(placed);
                        assert(issues.deep_view() =~= before.push(placed@));
                    },
                    None => {
                        valid_count = bump(valid_count);
                    },
                }
                j += 1;
            }
            k += 1;
        }
        if annotation_count > 0 && !has_intent {
            let ghost before = issues.deep_view();
            let missing = issue(
                Severity::Warning,
                String::from_str("Missing @ai:intent annotation (required for all functions)"),
            );
            issues.push(missing);
            assert(issues.deep_view() =~= before.push(missing@));
        }
        LintResult { issues, annotation_count, valid_annotation_count: valid_count }
    }
}

impl Default for LinterAdapter {
    fn default() -> (linter: LinterAdapter) {
        LinterAdapter
    }
}

impl LinterAdapterTrait for LinterAdapter {
    fn lint(&self, code: &str) -> (result: LintResult)
        ensures
            ({
                let state = lint_lines(lines_of(code@), lines_of(code@).len() as int);
                &&& result.issues.deep_view() == lint_issues(state)
                &&& result.annotation_count == state.annotation_count
                &&& result.valid_annotation_count == state.valid_count
            }),
    {
        self.lint_code(code)
    }
}

} // verus!
