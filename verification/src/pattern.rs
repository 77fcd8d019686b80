//! Regular-expression matching, done by the `regex` crate.
//!
//! The library never looks inside a pattern. It hands a pattern and a text to
//! the matcher and works on the capture groups that come back, so everything
//! proved about those steps holds whatever the matcher finds.

use vstd::prelude::*;
use vstd::string::StringExecFns;

verus! {

/// The capture groups of the leftmost match of `pattern` in `text`, as
/// `regex::Regex::captures` reports them: `None` where there is no match (or
/// `pattern` is not a regular expression at all), otherwise one entry per
/// group, group 0 being the whole match, with `None` for a group that took no
/// part in the match.
pub uninterp spec fn captures_of(pattern: Seq<char>, text: Seq<char>) -> Option<
    Seq<Option<Seq<char>>>,
>;

/// Compiles `pattern` with `regex::Regex::new` and runs `Regex::captures` on
/// each of `texts`, copying each group out with `Match::as_str`. The
/// contract claims only that each answer is determined by the pattern and
/// the text it was found in.
#[verifier::external_body]
pub(crate) fn captures_each(pattern: &str, texts: &Vec<String>) -> (found: Vec<
    Option<Vec<Option<String>>>,
>)
    ensures
        found@.len() == texts@.len(),
        forall|i: int|
            0 <= i < texts@.len() ==> (#[trigger] found@[i]).deep_view() == captures_of(
                pattern@,
                texts@[i]@,
            ),
{
    let compiled = regex::Regex::new(pattern).ok();
    texts.iter().map(
        |text| compiled.as_ref().and_then(|re| re.captures(text)).map(
            |found| found.iter().map(|g| g.map(|m| m.as_str().to_string())).collect(),
        ),
    ).collect()
}

/// The capture groups of the leftmost match of `pattern` in `text`.
pub fn captures(pattern: &str, text: &str) -> (groups: Option<Vec<Option<String>>>)
    ensures
        groups.deep_view() == captures_of(pattern@, text@),
{
    let mut texts: Vec<String> = Vec::new();
    texts.push(String::from_str(text));
    let mut found = captures_each(pattern, &texts);
    let groups = found.pop();
    match groups {
        Some(groups) => groups,
        None => None,
    }
}

/// Group `i` of a set of capture groups, if the match has such a group and it
/// took part in the match.
pub open spec fn group_of(groups: Seq<Option<Seq<char>>>, i: int) -> Option<Seq<char>> {
    if 0 <= i < groups.len() {
        groups[i]
    } else {
        None
    }
}

/// Group `i` of a set of capture groups.
pub fn group(groups: &Vec<Option<String>>, i: usize) -> (g: Option<&String>)
    ensures
        g.deep_view() == group_of(groups.deep_view(), i as int),
{
    if i < groups.len() {
        groups[i].as_ref()
    } else {
        None
    }
}

/// The capture groups of every match of `pattern` in `text`, in order, as
/// `regex::Regex::captures_iter` reports them: the matches do not overlap
/// and are found from the left. There is none where `pattern` is not a
/// regular expression.
pub uninterp spec fn all_captures_of(pattern: Seq<char>, text: Seq<char>) -> Seq<
    Seq<Option<Seq<char>>>,
>;

/// Compiles `pattern` with `regex::Regex::new` and walks
/// `Regex::captures_iter` over each of `texts`, copying each group out with
/// `Match::as_str`. The contract claims only that each answer is determined
/// by the pattern and the text it was found in.
#[verifier::external_body]
pub(crate) fn captures_all_each(pattern: &str, texts: &Vec<String>) -> (found: Vec<
    Vec<Vec<Option<String>>>,
>)
    ensures
        found@.len() == texts@.len(),
        forall|i: int|
            0 <= i < texts@.len() ==> (#[trigger] found@[i]).deep_view() == all_captures_of(
                pattern@,
                texts@[i]@,
            ),
{
    let compiled = regex::Regex::new(pattern).ok();
    texts.iter().map(
        |text| compiled.iter().flat_map(|re| re.captures_iter(text)).map(
            |found| found.iter().map(|g| g.map(|m| m.as_str().to_string())).collect(),
        ).collect(),
    ).collect()
}

/// The capture groups of every match of `pattern` in `text`, in order.
pub fn captures_all(pattern: &str, text: &str) -> (found: Vec<Vec<Option<String>>>)
    ensures
        found.deep_view() == all_captures_of(pattern@, text@),
{
    let mut texts: Vec<String> = Vec::new();
    texts.push(String::from_str(text));
    let mut each = captures_all_each(pattern, &texts);
    let found = each.pop();
    match found {
        Some(found) => found,
        None => {
            let none: Vec<Vec<Option<String>>> = Vec::new();
            none
        },
    }
}

/// The text that `regex::Regex::replace_all` makes of `text` when every
/// match of `pattern` gives way to `replacement`, in which `$` refers to
/// capture groups. It is `text` itself where `pattern` is not a regular
/// expression.
pub uninterp spec fn replaced_all(pattern: Seq<char>, text: Seq<char>, replacement: Seq<char>) -> Seq<
    char,
>;

/// Compiles `pattern` with `regex::Regex::new` and calls
/// `Regex::replace_all`. The contract claims only that the answer is
/// determined by the three texts.
#[verifier::external_body]
pub(crate) fn replace_all(pattern: &str, text: &str, replacement: &str) -> (r: String)
    ensures
        r@ == replaced_all(pattern@, text@, replacement@),
{
    match regex::Regex::new(pattern) {
        Ok(re) => re.replace_all(text, replacement).into_owned(),
        Err(_) => text.to_string(),
    }
}

/// Group `i` of a set of capture groups, or the empty text where the match
/// has no such group.
pub open spec fn group_or_empty(groups: Seq<Option<Seq<char>>>, i: int) -> Seq<char> {
    match group_of(groups, i) {
        Some(text) => text,
        None => Seq::<char>::empty(),
    }
}

/// Group `i` of a set of capture groups, or the empty text.
pub fn group_text(groups: &Vec<Option<String>>, i: usize) -> (text: String)
    ensures
        text@ == group_or_empty(groups.deep_view(), i as int),
{
    match group(groups, i) {
        Some(text) => text.clone(),
        None => String::new(),
    }
}

} // verus!
