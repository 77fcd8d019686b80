//! The facts by which annotations in generated code are scored: which kinds
//! of annotation are present, and what the intent looks like. The facts are
//! weighed in points, a hundred of which make a full score.

use crate::numeral::least;
use crate::pattern::{all_captures_of, captures, captures_all, captures_of, group_or_empty, group_text};
use crate::text::{
    contains, ends_with, equals, has_infix, has_suffix, lowercase_of, split_whitespace, to_lowercase,
    words_of,
};
use vstd::prelude::*;
use vstd::utf8::*;

verus! {

/// What is known about the intent annotation of a code.
#[derive(Debug, Clone, Copy, PartialEq, Eq, Structural)]
pub struct IntentTraits {
    /// The intent has three words or more.
    pub has_three_words: bool,
    /// The intent has five words or more.
    pub has_five_words: bool,
    /// The first word is a verb that names an action.
    pub starts_with_action: bool,
    /// The intent does not end in a full stop.
    pub is_open_ended: bool,
    /// The intent is longer than 10 and shorter than 100 bytes.
    pub has_moderate_length: bool,
}

/// What is known about the annotations of a code.
#[derive(Debug, Clone, Copy, PartialEq, Eq, Structural)]
pub struct AnnotationFacts {
    pub has_intent: bool,
    pub has_pre: bool,
    pub has_post: bool,
    pub has_effects: bool,
    pub has_example: bool,
    /// The traits of the first intent; `None` where there is no intent.
    pub intent: Option<IntentTraits>,
    pub example_count: u32,
    pub matched_expected: u32,
    pub total_expected: u32,
}

/// Gathers the facts by which annotations are scored.
#[derive(Debug, Clone, Copy)]
pub struct AnnotationScorer;

/// The pattern of an intent annotation: its text.
pub open spec fn intent_pattern() -> Seq<char> {
    r"@ai:intent\s+(.+)"@
}

/// The pattern of a precondition: its text.
pub open spec fn pre_pattern() -> Seq<char> {
    r"@ai:pre\s+(.+)"@
}

/// The pattern of a postcondition: its text.
pub open spec fn post_pattern() -> Seq<char> {
    r"@ai:post\s+(.+)"@
}

/// The pattern of an effects annotation: its text.
pub open spec fn effects_pattern() -> Seq<char> {
    r"@ai:effects\s+(.+)"@
}

/// The pattern of an example: its arguments and its result.
pub open spec fn example_pattern() -> Seq<char> {
    r"@ai:example\s+\(([^)]+)\)\s*->\s*(.+)"@
}

/// The verbs that name an action.
pub open spec fn action_verbs() -> Seq<Seq<char>> {
    seq![
        "calculate"@,
        "compute"@,
        "return"@,
        "validate"@,
        "check"@,
        "process"@,
        "convert"@,
        "transform"@,
        "find"@,
        "search"@,
        "create"@,
        "build"@,
        "parse"@,
        "format"@,
        "handle"@,
        "execute"@,
        "perform"@,
    ]
}

/// The first word of a text in lower case; the empty text where there is
/// no word.
pub open spec fn first_word_lower(intent: Seq<char>) -> Seq<char> {
    if words_of(intent).len() > 0 {
        lowercase_of(words_of(intent)[0])
    } else {
        Seq::<char>::empty()
    }
}

/// The traits of an intent.
pub open spec fn traits_of(intent: Seq<char>) -> IntentTraits {
    IntentTraits {
        has_three_words: words_of(intent).len() >= 3,
        has_five_words: words_of(intent).len() >= 5,
        starts_with_action: action_verbs().contains(first_word_lower(intent)),
        is_open_ended: !has_suffix(intent, "."@),
        has_moderate_length: 10 < encode_utf8(intent).len() < 100,
    }
}

/// The points of an intent, out of a hundred: 30 for three words, 20 more
/// for five, 30 for a leading action verb, 10 for no final full stop, and
/// 10 for a moderate length.
pub open spec fn intent_points(traits: IntentTraits) -> int {
    least(
        (if traits.has_three_words {
            30int
        } else {
            0int
        }) + (if traits.has_five_words {
            20int
        } else {
            0int
        }) + (if traits.starts_with_action {
            30int
        } else {
            0int
        }) + (if traits.is_open_ended {
            10int
        } else {
            0int
        }) + (if traits.has_moderate_length {
            10int
        } else {
            0int
        }),
        100,
    )
}

/// The points for completeness, out of a hundred: 40 for an intent, and 15
/// for each of precondition, postcondition, effects and example.
pub open spec fn completeness_points(facts: AnnotationFacts) -> int {
    (if facts.has_intent {
        40int
    } else {
        0int
    }) + (if facts.has_pre {
        15int
    } else {
        0int
    }) + (if facts.has_post {
        15int
    } else {
        0int
    }) + (if facts.has_effects {
        15int
    } else {
        0int
    }) + (if facts.has_example {
        15int
    } else {
        0int
    })
}

/// A count held in 32 bits: the count itself, or the largest value.
pub open spec fn capped(n: nat) -> u32 {
    if n <= u32::MAX {
        n as u32
    } else {
        u32::MAX
    }
}

/// How many of the first `upto` expected annotations occur in the code,
/// letter case aside.
pub open spec fn matched_upto(code: Seq<char>, expected: Seq<Seq<char>>, upto: int) -> nat
    decreases upto,
{
    if upto <= 0 {
        0
    } else {
        matched_upto(code, expected, upto - 1) + if has_infix(
            lowercase_of(code),
            lowercase_of(expected[upto - 1]),
        ) {
            1nat
        } else {
            0nat
        }
    }
}

/// The facts about the annotations of a code, given the annotations that
/// are expected in it.
pub open spec fn facts_of(code: Seq<char>, expected: Seq<Seq<char>>) -> AnnotationFacts {
    AnnotationFacts {
        has_intent: captures_of(intent_pattern(), code).is_some(),
        has_pre: captures_of(pre_pattern(), code).is_some(),
        has_post: captures_of(post_pattern(), code).is_some(),
        has_effects: captures_of(effects_pattern(), code).is_some(),
        has_example: captures_of(example_pattern(), code).is_some(),
        intent: match captures_of(intent_pattern(), code) {
            Some(groups) => Some(traits_of(group_or_empty(groups, 1))),
            None => None,
        },
        example_count: capped(all_captures_of(example_pattern(), code).len()),
        matched_expected: capped(matched_upto(code, expected, expected.len() as int)),
        total_expected: capped(expected.len()),
    }
}

/// A length held in 32 bits.
fn cap(n: usize) -> (m: u32)
    ensures
        m == capped(n as nat),
{
    if n <= 4_294_967_295 {
        n as u32
    } else {
        4_294_967_295
    }
}

/// Whether `word` is a verb that names an action.
fn is_action_verb(word: &str) -> (b: bool)
    ensures
        b == action_verbs().contains(word@),
{
    let verbs = vec![
        "calculate",
        "compute",
        "return",
        "validate",
        "check",
        "process",
        "convert",
        "transform",
        "find",
        "search",
        "create",
        "build",
        "parse",
        "format",
        "handle",
        "execute",
        "perform",
    ];
    assert(verbs.deep_view() =~= action_verbs());
    let mut i: usize = 0;
    while i < verbs.len()
        invariant
            i <= verbs@.len(),
            verbs.deep_view() == action_verbs(),
            forall|j: int| 0 <= j < i ==> verbs.deep_view()[j] != word@,
        decreases verbs@.len() - i,
    {
        if equals(verbs[i], word) {
            assert(verbs.deep_view()[i as int] == word@);
            return true;
        }
        i += 1;
    }
    false
}

/// The traits of an intent.
pub fn intent_traits(intent: &str) -> (traits: IntentTraits)
    ensures
        traits == traits_of(intent@),
{
    let words = split_whitespace(intent);
    let first = if words.len() > 0 {
        assert(words.deep_view()[0] == words@[0]@);
        to_lowercase(words[0].as_str())
    } else {
        String::new()
    };
    let size = intent.as_bytes().len();
    IntentTraits {
        has_three_words: words.len() >= 3,
        has_five_words: words.len() >= 5,
        starts_with_action: is_action_verb(first.as_str()),
        is_open_ended: !ends_with(intent, "."),
        has_moderate_length: 10 < size && size < 100,
    }
}

/// The points of an intent, out of a hundred.
pub fn score_intent_quality(traits: &IntentTraits) -> (points: u32)
    ensures
        points == intent_points(*traits),
{
    let mut points: u32 = 0;
    if traits.has_three_words {
        points += 30;
    }
    if traits.has_five_words {
        points += 20;
    }
    if traits.starts_with_action {
        points += 30;
    }
    if traits.is_open_ended {
        points += 10;
    }
    if traits.has_moderate_length {
        points += 10;
    }
    if points > 100 {
        100
    } else {
        points
    }
}

/// The points for completeness, out of a hundred.
pub fn calculate_completeness(facts: &AnnotationFacts) -> (points: u32)
    ensures
        points == completeness_points(*facts),
{
    let mut points: u32 = 0;
    if facts.has_intent {
        points += 40;
    }
    if facts.has_pre {
        points += 15;
    }
    if facts.has_post {
        points += 15;
    }
    if facts.has_effects {
        points += 15;
    }
    if facts.has_example {
        points += 15;
    }
    points
}

impl AnnotationScorer {
    /// A scorer.
    pub fn new() -> (scorer: AnnotationScorer) {
        AnnotationScorer
    }

    /// The traits of the first intent annotation of a code.
    pub fn check_intent(&self, code: &str) -> (traits: Option<IntentTraits>)
        ensures
            traits == facts_of(code@, seq![]).intent,
    {
        match captures(r"@ai:intent\s+(.+)", code) {
            Some(groups) => {
                let intent = group_text(&groups, 1);
                Some(intent_traits(intent.as_str()))
            },
            None => None,
        }
    }

    /// How many examples a code holds.
    pub fn count_examples(&self, code: &str) -> (n: u32)
        ensures
            n == capped(all_captures_of(example_pattern(), code@).len()),
    {
        cap(captures_all(r"@ai:example\s+\(([^)]+)\)\s*->\s*(.+)", code).len())
    }

    /// How many of the expected annotations occur in a code, letter case
    /// aside.
    pub fn count_matched(&self, code: &str, expected: &Vec<String>) -> (n: u32)
        ensures
            n == capped(matched_upto(code@, expected.deep_view(), expected@.len() as int)),
    {
        let lower = to_lowercase(code);
        let mut count: usize = 0;
        let mut i: usize = 0;
        while i < expected.len()
            invariant
                i <= expected@.len(),
                lower@ == lowercase_of(code@),
                count <= i,
                count == matched_upto(code@, expected.deep_view(), i as int),
            decreases expected@.len() - i,
        {
            assert(expected.deep_view()[i as int] == expected@[i as int]@);
            let wanted = to_lowercase(expected[i].as_str());
            if contains(lower.as_str(), wanted.as_str()) {
                count += 1;
            }
            i += 1;
        }
        cap(count)
    }

    /// The facts about the annotations of a code, given the annotations
    /// that are expected in it.
    pub fn facts(&self, code: &str, expected_annotations: &Vec<String>) -> (facts: AnnotationFacts)
        ensures
            facts == facts_of(code@, expected_annotations.deep_view()),
    {
        let intent = self.check_intent(code);
        AnnotationFacts {
            has_intent: intent.is_some(),
            has_pre: captures(r"@ai:pre\s+(.+)", code).is_some(),
            has_post: captures(r"@ai:post\s+(.+)", code).is_some(),
            has_effects: captures(r"@ai:effects\s+(.+)", code).is_some(),
            has_example: captures(r"@ai:example\s+\(([^)]+)\)\s*->\s*(.+)", code).is_some(),
            intent,
            example_count: self.count_examples(code),
            matched_expected: self.count_matched(code, expected_annotations),
            total_expected: cap(expected_annotations.len()),
        }
    }
}

impl Default for AnnotationScorer {
    fn default() -> (scorer: AnnotationScorer) {
        AnnotationScorer
    }
}

} // verus!
