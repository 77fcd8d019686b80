//! Scoring of two implementations against each other: the prompt that asks
//! for a comparison, and the handling of the answer.

use crate::text::{find_char, find_last_char, from_chars, index_of, last_index_of, replace, replaced, to_chars};
use vstd::prelude::*;
use vstd::string::StringExecFns;

verus! {

/// The score of one aspect of an implementation, with the reason given.
#[derive(Debug, Clone)]
pub struct AspectScore {
    pub score: u8,
    pub reason: String,
}

/// The scores of an implementation.
#[derive(Debug, Clone)]
pub struct ImplementationScore {
    /// The overall score, from 0 to 100.
    pub overall: u8,
    /// Whether the implementation does what was asked.
    pub intent_match: AspectScore,
    /// How well edge cases are handled.
    pub edge_cases: AspectScore,
    /// How clean and readable the code is.
    pub code_quality: AspectScore,
    /// How well annotations are used and followed.
    pub annotation_compliance: AspectScore,
}

/// The comparison of a baseline implementation with an annotated one.
#[derive(Debug, Clone)]
pub struct ComparisonScore {
    pub baseline: ImplementationScore,
    pub aicms: ImplementationScore,
    pub winner: String,
    pub summary: String,
}

/// Why a comparison could not be had.
#[derive(Debug, Clone)]
pub struct ScoreError {
    pub message: String,
}

/// Something that compares two implementations of a task, each given by
/// the directory that holds it.
pub trait ClaudeScorerTrait {
    /// Compares the implementation in `baseline_dir` with the one in
    /// `aicms_dir`.
    fn compare_dirs(&self, task_spec: &str, baseline_dir: &str, aicms_dir: &str) -> Result<
        ComparisonScore,
        ScoreError,
    >;
}

/// Asks the model for a comparison, with a prompt made from a template.
pub struct ClaudeScorer {
    prompt_template: String,
}

/// The prompt that a template gives: the task and the two directories
/// stand where the template names them.
pub open spec fn comparison_prompt(
    template: Seq<char>,
    task_spec: Seq<char>,
    baseline_dir: Seq<char>,
    aicms_dir: Seq<char>,
) -> Seq<char> {
    replaced(
        replaced(replaced(template, "{{TASK_SPEC}}"@, task_spec), "{{BASELINE_DIR}}"@, baseline_dir),
        "{{AICMS_DIR}}"@,
        aicms_dir,
    )
}

impl ClaudeScorer {
    /// The template of this scorer.
    pub closed spec fn template(&self) -> Seq<char> {
        self.prompt_template@
    }

    /// A scorer that asks with the given template.
    pub fn new(prompt_template: String) -> (scorer: ClaudeScorer)
        ensures
            scorer.template() == prompt_template@,
    {
        ClaudeScorer { prompt_template }
    }

    /// The prompt that asks for the comparison of the two directories.
    pub fn build_prompt(&self, task_spec: &str, baseline_dir: &str, aicms_dir: &str) -> (prompt: String)
        ensures
            prompt@ == comparison_prompt(self.template(), task_spec@, baseline_dir@, aicms_dir@),
    {
        let first = replace(self.prompt_template.as_str(), "{{TASK_SPEC}}", task_spec);
        let second = replace(first.as_str(), "{{BASELINE_DIR}}", baseline_dir);
        replace(second.as_str(), "{{AICMS_DIR}}", aicms_dir)
    }
}

impl Default for ClaudeScorer {
    fn default() -> (scorer: ClaudeScorer)
        ensures
            scorer.template() == default_template(),
    {
        ClaudeScorer::new(default_comparison_prompt())
    }
}

/// The template that is used unless another is given.
pub open spec fn default_template() -> Seq<char> {
    r#"You are evaluating two implementations of the same task. Read and compare the source files.

## Task Specification
{{TASK_SPEC}}

## Directories to Compare
- **Baseline** (no AICMS context): {{BASELINE_DIR}}
- **AICMS** (with annotation context): {{AICMS_DIR}}

## IMPORTANT: Fair Comparison Rules

**IGNORE all `@ai:*` annotation comments when scoring.** Do not give any advantage or disadvantage to code based on the presence or absence of `@ai:intent`, `@ai:pre`, `@ai:post`, or any other AICMS annotations.

Focus ONLY on:
- The actual code implementation
- The logic and algorithms used
- Error handling and edge cases
- Code structure and readability

## Instructions
1. Read all source files in both directories (ignore _claude_interaction.log and target/)
2. **Strip out all `@ai:*` annotations mentally** before evaluating
3. Compare the implementations on the criteria below
4. Output ONLY the JSON result (no markdown, no explanation)

## Scoring Criteria (0-100 for each)
1. **Intent Match**: Does the actual implementation correctly fulfill the specified task? (Ignore @ai:intent comments)
2. **Edge Cases**: Are edge cases handled correctly in the code? (Ignore @ai:pre/@ai:post comments)
3. **Code Quality**: Is the code clean, readable, and well-structured?
4. **Error Handling**: Does the code properly handle errors and invalid inputs?

## Required Output Format
Respond ONLY with valid JSON in this exact format:
{
  "baseline": {
    "overall": <0-100>,
    "intent_match": {"score": <0-100>, "reason": "<brief reason>"},
    "edge_cases": {"score": <0-100>, "reason": "<brief reason>"},
    "code_quality": {"score": <0-100>, "reason": "<brief reason>"},
    "annotation_compliance": {"score": <0-100>, "reason": "<brief reason for error handling>"}
  },
  "aicms": {
    "overall": <0-100>,
    "intent_match": {"score": <0-100>, "reason": "<brief reason>"},
    "edge_cases": {"score": <0-100>, "reason": "<brief reason>"},
    "code_quality": {"score": <0-100>, "reason": "<brief reason>"},
    "annotation_compliance": {"score": <0-100>, "reason": "<brief reason for error handling>"}
  },
  "winner": "<baseline|aicms|tie>",
  "summary": "<one sentence comparing the two implementations>"
}"#@
}

/// The template that is used unless another is given.
pub fn default_comparison_prompt() -> (template: String)
    ensures
        template@ == default_template(),
{
    String::from_str(
        r#"You are evaluating two implementations of the same task. Read and compare the source files.

## Task Specification
{{TASK_SPEC}}

## Directories to Compare
- **Baseline** (no AICMS context): {{BASELINE_DIR}}
- **AICMS** (with annotation context): {{AICMS_DIR}}

## IMPORTANT: Fair Comparison Rules

**IGNORE all `@ai:*` annotation comments when scoring.** Do not give any advantage or disadvantage to code based on the presence or absence of `@ai:intent`, `@ai:pre`, `@ai:post`, or any other AICMS annotations.

Focus ONLY on:
- The actual code implementation
- The logic and algorithms used
- Error handling and edge cases
- Code structure and readability

## Instructions
1. Read all source files in both directories (ignore _claude_interaction.log and target/)
2. **Strip out all `@ai:*` annotations mentally** before evaluating
3. Compare the implementations on the criteria below
4. Output ONLY the JSON result (no markdown, no explanation)

## Scoring Criteria (0-100 for each)
1. **Intent Match**: Does the actual implementation correctly fulfill the specified task? (Ignore @ai:intent comments)
2. **Edge Cases**: Are edge cases handled correctly in the code? (Ignore @ai:pre/@ai:post comments)
3. **Code Quality**: Is the code clean, readable, and well-structured?
4. **Error Handling**: Does the code properly handle errors and invalid inputs?

## Required Output Format
Respond ONLY with valid JSON in this exact format:
{
  "baseline": {
    "overall": <0-100>,
    "intent_match": {"score": <0-100>, "reason": "<brief reason>"},
    "edge_cases": {"score": <0-100>, "reason": "<brief reason>"},
    "code_quality": {"score": <0-100>, "reason": "<brief reason>"},
    "annotation_compliance": {"score": <0-100>, "reason": "<brief reason for error handling>"}
  },
  "aicms": {
    "overall": <0-100>,
    "intent_match": {"score": <0-100>, "reason": "<brief reason>"},
    "edge_cases": {"score": <0-100>, "reason": "<brief reason>"},
    "code_quality": {"score": <0-100>, "reason": "<brief reason>"},
    "annotation_compliance": {"score": <0-100>, "reason": "<brief reason for error handling>"}
  },
  "winner": "<baseline|aicms|tie>",
  "summary": "<one sentence comparing the two implementations>"
}"#,
    )
}

/// Why an answer holds no JSON object.
#[derive(Debug, Clone, Copy, PartialEq, Eq, Structural)]
pub enum JsonError {
    /// The answer holds no opening brace.
    NoStart,
    /// The answer holds no closing brace.
    NoEnd,
    /// The last closing brace does not stand behind the first opening one.
    Malformed,
}

/// The sentence for each error.
pub open spec fn json_error_text(e: JsonError) -> Seq<char> {
    match e {
        JsonError::NoStart => "No JSON object found in response"@,
        JsonError::NoEnd => "No JSON object end found in response"@,
        JsonError::Malformed => "Invalid JSON structure in response"@,
    }
}

impl JsonError {
    /// The sentence that describes this error.
    pub fn message(&self) -> (s: &'static str)
        ensures
            s@ == json_error_text(*self),
    {
        match self {
            JsonError::NoStart => "No JSON object found in response",
            JsonError::NoEnd => "No JSON object end found in response",
            JsonError::Malformed => "Invalid JSON structure in response",
        }
    }
}

/// The JSON object in an answer that may hold other text around it: what
/// stands from the first opening brace to the last closing brace.
pub open spec fn json_of(response: Seq<char>) -> Result<Seq<char>, JsonError> {
    let start = index_of(response, '{') as int;
    if start >= response.len() {
        Err(JsonError::NoStart)
    } else {
        match last_index_of(response, '}') {
            None => Err(JsonError::NoEnd),
            Some(end) => if end <= start {
                Err(JsonError::Malformed)
            } else {
                Ok(response.subrange(start, end + 1))
            },
        }
    }
}

/// Cuts the JSON object out of an answer.
pub fn extract_json(response: &str) -> (r: Result<String, JsonError>)
    ensures
        match r {
            Ok(json) => json_of(response@) == Ok::<_, JsonError>(json@),
            Err(e) => json_of(response@) == Err::<Seq<char>, _>(e),
        },
{
    let v = to_chars(response);
    assert(v@.skip(0) =~= v@);
    let start = find_char(&v, 0, '{');
    if start >= v.len() {
        return Err(JsonError::NoStart);
    }
    match find_last_char(&v, '}') {
        None => Err(JsonError::NoEnd),
        Some(end) => {
            if end <= start {
                Err(JsonError::Malformed)
            } else {
                Ok(from_chars(&v, start, end + 1))
            }
        },
    }
}

/// A scorer that gives one fixed comparison.
pub struct MockClaudeScorer {
    score: ComparisonScore,
}

/// An aspect score with the given number and reason.
fn aspect(score: u8, reason: &str) -> (a: AspectScore)
    ensures
        a.score == score,
        a.reason@ == reason@,
{
    AspectScore { score, reason: String::from_str(reason) }
}

/// A copy of an aspect score.
fn copy_aspect(a: &AspectScore) -> (c: AspectScore)
    ensures
        c.score == a.score,
        c.reason@ == a.reason@,
{
    AspectScore { score: a.score, reason: a.reason.clone() }
}

/// Whether two implementation scores hold the same values.
pub open spec fn same_scores(a: ImplementationScore, b: ImplementationScore) -> bool {
    &&& a.overall == b.overall
    &&& a.intent_match.score == b.intent_match.score
    &&& a.intent_match.reason@ == b.intent_match.reason@
    &&& a.edge_cases.score == b.edge_cases.score
    &&& a.edge_cases.reason@ == b.edge_cases.reason@
    &&& a.code_quality.score == b.code_quality.score
    &&& a.code_quality.reason@ == b.code_quality.reason@
    &&& a.annotation_compliance.score == b.annotation_compliance.score
    &&& a.annotation_compliance.reason@ == b.annotation_compliance.reason@
}

/// Whether two comparisons hold the same values.
pub open spec fn same_comparison(a: ComparisonScore, b: ComparisonScore) -> bool {
    &&& same_scores(a.baseline, b.baseline)
    &&& same_scores(a.aicms, b.aicms)
    &&& a.winner@ == b.winner@
    &&& a.summary@ == b.summary@
}

/// A copy of an implementation score.
fn copy_scores(s: &ImplementationScore) -> (c: ImplementationScore)
    ensures
        same_scores(c, *s),
{
    ImplementationScore {
        overall: s.overall,
        intent_match: copy_aspect(&s.intent_match),
        edge_cases: copy_aspect(&s.edge_cases),
        code_quality: copy_aspect(&s.code_quality),
        annotation_compliance: copy_aspect(&s.annotation_compliance),
    }
}

/// The scores of an implementation whose aspects all have the reason
/// `reason`.
pub open spec fn has_scores(
    s: ImplementationScore,
    overall: u8,
    intent: u8,
    edges: u8,
    quality: u8,
    compliance: u8,
    reason: Seq<char>,
) -> bool {
    &&& s.overall == overall
    &&& s.intent_match.score == intent
    &&& s.intent_match.reason@ == reason
    &&& s.edge_cases.score == edges
    &&& s.edge_cases.reason@ == reason
    &&& s.code_quality.score == quality
    &&& s.code_quality.reason@ == reason
    &&& s.annotation_compliance.score == compliance
    &&& s.annotation_compliance.reason@ == reason
}

impl MockClaudeScorer {
    /// The comparison that this scorer gives.
    pub closed spec fn fixed(&self) -> ComparisonScore {
        self.score
    }

    /// A scorer that always gives `score`.
    pub fn new(score: ComparisonScore) -> (scorer: MockClaudeScorer)
        ensures
            scorer.fixed() == score,
    {
        MockClaudeScorer { score }
    }

    /// A scorer that finds the annotated implementation the better one: 85
    /// against 70 overall.
    pub fn with_defaults() -> (scorer: MockClaudeScorer)
        ensures
            has_scores(scorer.fixed().baseline, 70, 70, 60, 75, 50, "Mock baseline"@),
            has_scores(scorer.fixed().aicms, 85, 90, 85, 80, 90, "Mock AICMS"@),
            scorer.fixed().winner@ == "aicms"@,
            scorer.fixed().summary@ == "Mock comparison"@,
    {
        MockClaudeScorer {
            score: ComparisonScore {
                baseline: ImplementationScore {
                    overall: 70,
                    intent_match: aspect(70, "Mock baseline"),
                    edge_cases: aspect(60, "Mock baseline"),
                    code_quality: aspect(75, "Mock baseline"),
                    annotation_compliance: aspect(50, "Mock baseline"),
                },
                aicms: ImplementationScore {
                    overall: 85,
                    intent_match: aspect(90, "Mock AICMS"),
                    edge_cases: aspect(85, "Mock AICMS"),
                    code_quality: aspect(80, "Mock AICMS"),
                    annotation_compliance: aspect(90, "Mock AICMS"),
                },
                winner: String::from_str("aicms"),
                summary: String::from_str("Mock comparison"),
            },
        }
    }

    /// The comparison of this scorer, whatever is compared.
    pub fn compare(&self) -> (score: ComparisonScore)
        ensures
            same_comparison(score, self.fixed()),
    {
        ComparisonScore {
            baseline: copy_scores(&self.score.baseline),
            aicms: copy_scores(&self.score.aicms),
            winner: self.score.winner.clone(),
            summary: self.score.summary.clone(),
        }
    }
}

impl ClaudeScorerTrait for MockClaudeScorer {
    fn compare_dirs(&self, task_spec: &str, baseline_dir: &str, aicms_dir: &str) -> (r: Result<
        ComparisonScore,
        ScoreError,
    >)
        ensures
            r matches Ok(score) && same_comparison(score, self.fixed()),
    {
        Ok(self.compare())
    }
}

} // verus!
