//! The semantic diff: how the contract of each function changed between two
//! versions of a file.
//!
//! Functions are paired by name. A function that stands in only one of the
//! two versions is passed over. Where a name occurs more than once in a
//! version, its last function counts. The changes of one function come in a
//! fixed order of rules; the functions come in the order in which the new
//! version defines them.

use crate::annotation::{FunctionAnnotations, FunctionModel, ParsedFile, ParsedFileModel};
use crate::confidence::{differs_significantly, two_decimals, Confidence};
use crate::text::{chars_equal, equals, join, joined, to_chars};
use vstd::prelude::*;
use vstd::string::StringExecFns;

verus! {

/// How much a change of contract matters to callers.
#[derive(Debug, Clone, Copy, PartialEq, Eq, Structural)]
pub enum ChangeType {
    /// Callers that relied on the old contract may break.
    Breaking,
    /// Worth a look, but no caller breaks.
    Notable,
    /// The contract asks less or promises more.
    NonBreaking,
}

/// One change of a function's contract.
#[derive(Debug, Clone)]
pub struct ContractChange {
    pub function_name: String,
    pub change_type: ChangeType,
    pub tag: String,
    pub description: String,
    pub old_value: Option<String>,
    pub new_value: Option<String>,
}

/// A change as plain values.
pub struct ChangeModel {
    pub function_name: Seq<char>,
    pub change_type: ChangeType,
    pub tag: Seq<char>,
    pub description: Seq<char>,
    pub old_value: Option<Seq<char>>,
    pub new_value: Option<Seq<char>>,
}

impl View for ContractChange {
    type V = ChangeModel;

    open spec fn view(&self) -> ChangeModel {
        ChangeModel {
            function_name: self.function_name@,
            change_type: self.change_type,
            tag: self.tag@,
            description: self.description@,
            old_value: self.old_value.deep_view(),
            new_value: self.new_value.deep_view(),
        }
    }
}

impl DeepView for ContractChange {
    type V = ChangeModel;

    open spec fn deep_view(&self) -> ChangeModel {
        self@
    }
}

/// The changes between two versions of a file, with a count for each kind.
#[derive(Debug, Clone)]
pub struct DiffResult {
    pub file_path: String,
    pub changes: Vec<ContractChange>,
    pub breaking_count: usize,
    pub notable_count: usize,
    pub non_breaking_count: usize,
}

/// A diff as plain values.
pub struct DiffModel {
    pub file_path: Seq<char>,
    pub changes: Seq<ChangeModel>,
    pub breaking_count: nat,
    pub notable_count: nat,
    pub non_breaking_count: nat,
}

impl View for DiffResult {
    type V = DiffModel;

    open spec fn view(&self) -> DiffModel {
        DiffModel {
            file_path: self.file_path@,
            changes: self.changes.deep_view(),
            breaking_count: self.breaking_count as nat,
            notable_count: self.notable_count as nat,
            non_breaking_count: self.non_breaking_count as nat,
        }
    }
}

/// How many of `changes` are of the kind `kind`.
pub open spec fn count_kind(changes: Seq<ChangeModel>, kind: ChangeType) -> nat
    decreases changes.len(),
{
    if changes.len() == 0 {
        0
    } else {
        count_kind(changes.drop_last(), kind) + if changes.last().change_type == kind {
            1nat
        } else {
            0nat
        }
    }
}

/// The diff for `file_path` that holds `changes`, counted.
pub open spec fn counted(file_path: Seq<char>, changes: Seq<ChangeModel>) -> DiffModel {
    DiffModel {
        file_path,
        changes,
        breaking_count: count_kind(changes, ChangeType::Breaking),
        notable_count: count_kind(changes, ChangeType::Notable),
        non_breaking_count: count_kind(changes, ChangeType::NonBreaking),
    }
}

/// No kind counts more changes than there are.
pub proof fn lemma_count_bounded(changes: Seq<ChangeModel>, kind: ChangeType)
    ensures
        count_kind(changes, kind) <= changes.len(),
    decreases changes.len(),
{
    if changes.len() > 0 {
        lemma_count_bounded(changes.drop_last(), kind);
    }
}

impl DiffResult {
    /// Whether each count is the number of changes of its kind.
    pub open spec fn wf(&self) -> bool {
        self@ == counted(self@.file_path, self@.changes)
    }

    /// The diff for `file_path` with no changes.
    pub fn new(file_path: String) -> (r: DiffResult)
        ensures
            r@ == counted(file_path@, seq![]),
            r.wf(),
    {
        let r = DiffResult {
            file_path,
            changes: Vec::new(),
            breaking_count: 0,
            notable_count: 0,
            non_breaking_count: 0,
        };
        assert(r@.changes =~= Seq::<ChangeModel>::empty());
        r
    }

    /// Whether a breaking change was found.
    pub fn has_breaking_changes(&self) -> (b: bool)
        ensures
            b == (self@.breaking_count > 0),
    {
        self.breaking_count > 0
    }

    /// Appends a change and counts it.
    pub fn add_change(&mut self, change: ContractChange)
        requires
            old(self).wf(),
        ensures
            final(self).wf(),
            final(self)@.file_path == old(self)@.file_path,
            final(self)@.changes == old(self)@.changes.push(change@),
    {
        let ghost before = self@.changes;
        let kind = change.change_type;
        self.changes.push(change);
        let held = self.changes.len();
        proof {
            assert(held == before.len() + 1);
            assert(self.changes.deep_view() =~= before.push(change@));
            assert(before.push(change@).drop_last() =~= before);
            lemma_count_bounded(before, ChangeType::Breaking);
            lemma_count_bounded(before, ChangeType::Notable);
            lemma_count_bounded(before, ChangeType::NonBreaking);
        }
        match kind {
            ChangeType::Breaking => {
                self.breaking_count = self.breaking_count + 1;
            },
            ChangeType::Notable => {
                self.notable_count = self.notable_count + 1;
            },
            ChangeType::NonBreaking => {
                self.non_breaking_count = self.non_breaking_count + 1;
            },
        }
    }
}

impl Default for DiffResult {
    fn default() -> (r: DiffResult)
        ensures
            r@ == counted(seq![], seq![]),
            r.wf(),
    {
        DiffResult::new(String::new())
    }
}

/// The rules that compare two lists entry by entry.
pub enum ListRule {
    /// A precondition of the new version that the old one lacks.
    PreconditionAdded,
    /// A precondition of the old version that the new one lacks.
    PreconditionRemoved,
    /// A postcondition of the old version that the new one lacks.
    PostconditionRemoved,
    /// A postcondition of the new version that the old one lacks.
    PostconditionAdded,
    /// An effect of the new version that the old one lacks.
    EffectAdded,
    /// An effect of the old version that the new one lacks.
    EffectRemoved,
}

/// Whether a rule reports entries of the new version.
pub open spec fn reports_new(rule: ListRule) -> bool {
    rule is PreconditionAdded || rule is PostconditionAdded || rule is EffectAdded
}

/// How much the finding of a rule matters: what asks more of callers or
/// promises them less is breaking.
pub open spec fn rule_kind(rule: ListRule) -> ChangeType {
    match rule {
        ListRule::PreconditionAdded => ChangeType::Breaking,
        ListRule::PreconditionRemoved => ChangeType::NonBreaking,
        ListRule::PostconditionRemoved => ChangeType::Breaking,
        ListRule::PostconditionAdded => ChangeType::NonBreaking,
        ListRule::EffectAdded => ChangeType::Breaking,
        ListRule::EffectRemoved => ChangeType::NonBreaking,
    }
}

/// The tag that a rule speaks about.
pub open spec fn rule_tag(rule: ListRule) -> Seq<char> {
    match rule {
        ListRule::PreconditionAdded | ListRule::PreconditionRemoved => "@ai:pre"@,
        ListRule::PostconditionRemoved | ListRule::PostconditionAdded => "@ai:post"@,
        ListRule::EffectAdded | ListRule::EffectRemoved => "@ai:effects"@,
    }
}

/// The sentence with which a rule reports the entry `item`.
pub open spec fn rule_description(rule: ListRule, item: Seq<char>) -> Seq<char> {
    match rule {
        ListRule::PreconditionAdded => "Precondition strengthened (new requirement added)"@,
        ListRule::PreconditionRemoved => "Precondition weakened (requirement removed)"@,
        ListRule::PostconditionRemoved => "Postcondition weakened (guarantee removed)"@,
        ListRule::PostconditionAdded => "Postcondition strengthened (new guarantee added)"@,
        ListRule::EffectAdded => "New side effect added: "@ + item,
        ListRule::EffectRemoved => "Side effect removed: "@ + item,
    }
}

/// Whether a rule passes over the entry `item` whatever the other list
/// holds: the effect rules do not report the word `pure`.
pub open spec fn rule_skips(rule: ListRule, item: Seq<char>) -> bool {
    (rule is EffectAdded || rule is EffectRemoved) && item == "pure"@
}

/// The change with which a rule reports the entry `item` of function `name`.
pub open spec fn rule_change(rule: ListRule, name: Seq<char>, item: Seq<char>) -> ChangeModel {
    ChangeModel {
        function_name: name,
        change_type: rule_kind(rule),
        tag: rule_tag(rule),
        description: rule_description(rule, item),
        old_value: if reports_new(rule) {
            None
        } else {
            Some(item)
        },
        new_value: if reports_new(rule) {
            Some(item)
        } else {
            None
        },
    }
}

/// The findings of a rule: one change for each entry of `items`, in order,
/// that `other` does not hold and the rule does not pass over.
pub open spec fn listed_changes(
    rule: ListRule,
    name: Seq<char>,
    items: Seq<Seq<char>>,
    other: Seq<Seq<char>>,
) -> Seq<ChangeModel>
    decreases items.len(),
{
    if items.len() == 0 {
        seq![]
    } else {
        let before = listed_changes(rule, name, items.drop_last(), other);
        if rule_skips(rule, items.last()) || other.contains(items.last()) {
            before
        } else {
            before.push(rule_change(rule, name, items.last()))
        }
    }
}

/// The changes of the preconditions: each new one is breaking, each dropped
/// one is not.
pub open spec fn pre_changes(name: Seq<char>, old_pre: Seq<Seq<char>>, new_pre: Seq<Seq<char>>) -> Seq<
    ChangeModel,
> {
    listed_changes(ListRule::PreconditionAdded, name, new_pre, old_pre) + listed_changes(
        ListRule::PreconditionRemoved,
        name,
        old_pre,
        new_pre,
    )
}

/// The changes of the postconditions: each dropped one is breaking, each new
/// one is not.
pub open spec fn post_changes(name: Seq<char>, old_post: Seq<Seq<char>>, new_post: Seq<Seq<char>>) -> Seq<
    ChangeModel,
> {
    listed_changes(ListRule::PostconditionRemoved, name, old_post, new_post) + listed_changes(
        ListRule::PostconditionAdded,
        name,
        new_post,
        old_post,
    )
}

/// Whether a list of effects stands for a pure function: it is empty or
/// holds the word `pure`.
pub open spec fn is_pure(effects: Seq<Seq<char>>) -> bool {
    effects.len() == 0 || effects.contains("pure"@)
}

/// The change that reports a function that was pure and is so no longer.
pub open spec fn purity_lost(name: Seq<char>, new_effects: Seq<Seq<char>>) -> ChangeModel {
    ChangeModel {
        function_name: name,
        change_type: ChangeType::Breaking,
        tag: "@ai:effects"@,
        description: "Function is no longer pure (side effects added)"@,
        old_value: Some("pure"@),
        new_value: Some(joined(new_effects, ", "@)),
    }
}

/// The change that reports a function that was not pure and now is.
pub open spec fn purity_gained(name: Seq<char>, old_effects: Seq<Seq<char>>) -> ChangeModel {
    ChangeModel {
        function_name: name,
        change_type: ChangeType::NonBreaking,
        tag: "@ai:effects"@,
        description: "Function is now pure (side effects removed)"@,
        old_value: Some(joined(old_effects, ", "@)),
        new_value: Some("pure"@),
    }
}

/// The changes of the effects. A step from pure to impure, or back, is
/// reported as one change and nothing else. Otherwise each new effect is
/// breaking and each dropped one is not.
pub open spec fn effects_changes(
    name: Seq<char>,
    old_effects: Seq<Seq<char>>,
    new_effects: Seq<Seq<char>>,
) -> Seq<ChangeModel> {
    if is_pure(old_effects) && !is_pure(new_effects) {
        seq![purity_lost(name, new_effects)]
    } else if !is_pure(old_effects) && is_pure(new_effects) {
        seq![purity_gained(name, old_effects)]
    } else {
        listed_changes(ListRule::EffectAdded, name, new_effects, old_effects) + listed_changes(
            ListRule::EffectRemoved,
            name,
            old_effects,
            new_effects,
        )
    }
}

/// Whether `list` holds the text `item`.
pub fn list_contains(list: &Vec<String>, item: &str) -> (b: bool)
    ensures
        b == list.deep_view().contains(item@),
{
    let mut i: usize = 0;
    while i < list.len()
        invariant
            i <= list@.len(),
            forall|j: int| 0 <= j < i ==> list.deep_view()[j] != item@,
        decreases list@.len() - i,
    {
        if equals(list[i].as_str(), item) {
            assert(list.deep_view()[i as int] == item@);
            return true;
        }
        i += 1;
    }
    false
}

/// A change with the given parts.
fn make_change(
    name: &str,
    change_type: ChangeType,
    tag: &str,
    description: String,
    old_value: Option<String>,
    new_value: Option<String>,
) -> (c: ContractChange)
    ensures
        c@ == (ChangeModel {
            function_name: name@,
            change_type,
            tag: tag@,
            description: description@,
            old_value: old_value.deep_view(),
            new_value: new_value.deep_view(),
        }),
{
    ContractChange {
        function_name: String::from_str(name),
        change_type,
        tag: String::from_str(tag),
        description,
        old_value,
        new_value,
    }
}

/// The change with which a rule reports the entry `item`.
fn make_rule_change(rule: &ListRule, name: &str, item: &str) -> (c: ContractChange)
    ensures
        c@ == rule_change(*rule, name@, item@),
{
    match rule {
        ListRule::PreconditionAdded => make_change(
            name,
            ChangeType::Breaking,
            "@ai:pre",
            String::from_str("Precondition strengthened (new requirement added)"),
            None,
            Some(String::from_str(item)),
        ),
        ListRule::PreconditionRemoved => make_change(
            name,
            ChangeType::NonBreaking,
            "@ai:pre",
            String::from_str("Precondition weakened (requirement removed)"),
            Some(String::from_str(item)),
            None,
        ),
        ListRule::PostconditionRemoved => make_change(
            name,
            ChangeType::Breaking,
            "@ai:post",
            String::from_str("Postcondition weakened (guarantee removed)"),
            Some(String::from_str(item)),
            None,
        ),
        ListRule::PostconditionAdded => make_change(
            name,
            ChangeType::NonBreaking,
            "@ai:post",
            String::from_str("Postcondition strengthened (new guarantee added)"),
            None,
            Some(String::from_str(item)),
        ),
        ListRule::EffectAdded => make_change(
            name,
            ChangeType::Breaking,
            "@ai:effects",
            String::from_str("New side effect added: ").concat(item),
            None,
            Some(String::from_str(item)),
        ),
        ListRule::EffectRemoved => make_change(
            name,
            ChangeType::NonBreaking,
            "@ai:effects",
            String::from_str("Side effect removed: ").concat(item),
            Some(String::from_str(item)),
            None,
        ),
    }
}

/// Whether a rule passes over the entry `item`.
fn skips(rule: &ListRule, item: &str) -> (b: bool)
    ensures
        b == rule_skips(*rule, item@),
{
    match rule {
        ListRule::EffectAdded | ListRule::EffectRemoved => equals(item, "pure"),
        _ => false,
    }
}

/// Appends the findings of one rule.
fn compare_lists(
    result: &mut DiffResult,
    rule: ListRule,
    name: &str,
    items: &Vec<String>,
    other: &Vec<String>,
)
    requires
        old(result).wf(),
    ensures
        final(result).wf(),
        final(result)@.file_path == old(result)@.file_path,
        final(result)@.changes == old(result)@.changes + listed_changes(
            rule,
            name@,
            items.deep_view(),
            other.deep_view(),
        ),
{
    let mut i: usize = 0;
    proof {
        assert(items.deep_view().take(0) =~= Seq::<Seq<char>>::empty());
        assert(result@.changes + Seq::<ChangeModel>::empty() =~= result@.changes);
    }
    while i < items.len()
        invariant
            i <= items@.len(),
            result.wf(),
            result@.file_path == old(result)@.file_path,
            result@.changes == old(result)@.changes + listed_changes(
                rule,
                name@,
                items.deep_view().take(i as int),
                other.deep_view(),
            ),
        decreases items@.len() - i,
    {
        let item = items[i].as_str();
        let ghost upto = items.deep_view().take(i as int + 1);
        let ghost before = listed_changes(rule, name@, items.deep_view().take(i as int), other.deep_view());
        proof {
            assert(upto.drop_last() =~= items.deep_view().take(i as int));
            assert(upto.last() == item@);
        }
        if !skips(&rule, item) && !list_contains(other, item) {
            let change = make_rule_change(&rule, name, item);
            result.add_change(change);
            assert(old(result)@.changes + before.push(change@) =~= (old(result)@.changes
                + before).push(change@));
        }
        i += 1;
    }
    assert(items.deep_view().take(i as int) =~= items.deep_view());
}

/// Compares the preconditions of two versions of a function. A condition
/// that only the new version has asks more of callers and is breaking; one
/// that only the old version has is not.
pub fn compare_preconditions(
    result: &mut DiffResult,
    func_name: &str,
    old_pre: &Vec<String>,
    new_pre: &Vec<String>,
)
    requires
        old(result).wf(),
    ensures
        final(result).wf(),
        final(result)@.file_path == old(result)@.file_path,
        final(result)@.changes == old(result)@.changes + pre_changes(
            func_name@,
            old_pre.deep_view(),
            new_pre.deep_view(),
        ),
{
    compare_lists(result, ListRule::PreconditionAdded, func_name, new_pre, old_pre);
    compare_lists(result, ListRule::PreconditionRemoved, func_name, old_pre, new_pre);
    proof {
        let a = listed_changes(
            ListRule::PreconditionAdded,
            func_name@,
            new_pre.deep_view(),
            old_pre.deep_view(),
        );
        let b = listed_changes(
            ListRule::PreconditionRemoved,
            func_name@,
            old_pre.deep_view(),
            new_pre.deep_view(),
        );
        assert((old(result)@.changes + a) + b =~= old(result)@.changes + (a + b));
    }
}

/// Compares the postconditions of two versions of a function. A guarantee
/// that only the old version has is lost to callers and is breaking; one
/// that only the new version has is not.
pub fn compare_postconditions(
    result: &mut DiffResult,
    func_name: &str,
    old_post: &Vec<String>,
    new_post: &Vec<String>,
)
    requires
        old(result).wf(),
    ensures
        final(result).wf(),
        final(result)@.file_path == old(result)@.file_path,
        final(result)@.changes == old(result)@.changes + post_changes(
            func_name@,
            old_post.deep_view(),
            new_post.deep_view(),
        ),
{
    compare_lists(result, ListRule::PostconditionRemoved, func_name, old_post, new_post);
    compare_lists(result, ListRule::PostconditionAdded, func_name, new_post, old_post);
    proof {
        let a = listed_changes(
            ListRule::PostconditionRemoved,
            func_name@,
            old_post.deep_view(),
            new_post.deep_view(),
        );
        let b = listed_changes(
            ListRule::PostconditionAdded,
            func_name@,
            new_post.deep_view(),
            old_post.deep_view(),
        );
        assert((old(result)@.changes + a) + b =~= old(result)@.changes + (a + b));
    }
}

/// Whether a list of effects stands for a pure function.
fn pure_effects(effects: &Vec<String>) -> (b: bool)
    ensures
        b == is_pure(effects.deep_view()),
{
    effects.len() == 0 || list_contains(effects, "pure")
}

/// Compares the effects of two versions of a function.
pub fn compare_effects(
    result: &mut DiffResult,
    func_name: &str,
    old_effects: &Vec<String>,
    new_effects: &Vec<String>,
)
    requires
        old(result).wf(),
    ensures
        final(result).wf(),
        final(result)@.file_path == old(result)@.file_path,
        final(result)@.changes == old(result)@.changes + effects_changes(
            func_name@,
            old_effects.deep_view(),
            new_effects.deep_view(),
        ),
{
    let was_pure = pure_effects(old_effects);
    let now_pure = pure_effects(new_effects);
    if was_pure && !now_pure {
        let change = make_change(
            func_name,
            ChangeType::Breaking,
            "@ai:effects",
            String::from_str("Function is no longer pure (side effects added)"),
            Some(String::from_str("pure")),
            Some(join(new_effects, ", ")),
        );
        result.add_change(change);
        assert(old(result)@.changes.push(change@) =~= old(result)@.changes + seq![change@]);
        return ;
    }
    if !was_pure && now_pure {
        let change = make_change(
            func_name,
            ChangeType::NonBreaking,
            "@ai:effects",
            String::from_str("Function is now pure (side effects removed)"),
            Some(join(old_effects, ", ")),
            Some(String::from_str("pure")),
        );
        result.add_change(change);
        assert(old(result)@.changes.push(change@) =~= old(result)@.changes + seq![change@]);
        return ;
    }
    compare_lists(result, ListRule::EffectAdded, func_name, new_effects, old_effects);
    compare_lists(result, ListRule::EffectRemoved, func_name, old_effects, new_effects);
    proof {
        let a = listed_changes(
            ListRule::EffectAdded,
            func_name@,
            new_effects.deep_view(),
            old_effects.deep_view(),
        );
        let b = listed_changes(
            ListRule::EffectRemoved,
            func_name@,
            old_effects.deep_view(),
            new_effects.deep_view(),
        );
        assert((old(result)@.changes + a) + b =~= old(result)@.changes + (a + b));
    }
}

/// The word for a truth value.
pub open spec fn bool_text(b: bool) -> Seq<char> {
    if b {
        "true"@
    } else {
        "false"@
    }
}

/// The word for a truth value that may be missing.
pub open spec fn flag_text(b: Option<bool>) -> Option<Seq<char>> {
    match b {
        Some(b) => Some(bool_text(b)),
        None => None,
    }
}

/// The change of idempotence. A function that was idempotent and is so no
/// longer breaks callers; one that has become idempotent does not.
pub open spec fn idempotent_changes(name: Seq<char>, old: Option<bool>, new: Option<bool>) -> Seq<
    ChangeModel,
> {
    if old == Some(true) && new != Some(true) {
        seq![
            ChangeModel {
                function_name: name,
                change_type: ChangeType::Breaking,
                tag: "@ai:idempotent"@,
                description: "Function is no longer idempotent"@,
                old_value: Some("true"@),
                new_value: flag_text(new),
            },
        ]
    } else if old != Some(true) && new == Some(true) {
        seq![
            ChangeModel {
                function_name: name,
                change_type: ChangeType::NonBreaking,
                tag: "@ai:idempotent"@,
                description: "Function is now idempotent"@,
                old_value: flag_text(old),
                new_value: Some("true"@),
            },
        ]
    } else {
        seq![]
    }
}

/// The change of intent: notable where both versions state an intent and
/// the two texts differ.
pub open spec fn intent_changes(name: Seq<char>, old: Option<Seq<char>>, new: Option<Seq<char>>) -> Seq<
    ChangeModel,
> {
    if old.is_some() && new.is_some() && old != new {
        seq![
            ChangeModel {
                function_name: name,
                change_type: ChangeType::Notable,
                tag: "@ai:intent"@,
                description: "Intent description changed"@,
                old_value: old,
                new_value: new,
            },
        ]
    } else {
        seq![]
    }
}

/// The change of confidence, both given in millionths: reported where both
/// versions state one and the two differ by a tenth or more. A drop is
/// notable, a rise is not breaking.
pub open spec fn confidence_changes(name: Seq<char>, old: Option<int>, new: Option<int>) -> Seq<
    ChangeModel,
> {
    match (old, new) {
        (Some(was), Some(now)) => if differs_significantly(was, now) {
            seq![
                ChangeModel {
                    function_name: name,
                    change_type: if now < was {
                        ChangeType::Notable
                    } else {
                        ChangeType::NonBreaking
                    },
                    tag: "@ai:confidence"@,
                    description: "Confidence "@ + (if now < was {
                        "decreased"@
                    } else {
                        "increased"@
                    }) + " from "@ + two_decimals(was) + " to "@ + two_decimals(now),
                    old_value: Some(two_decimals(was)),
                    new_value: Some(two_decimals(now)),
                },
            ]
        } else {
            seq![]
        },
        _ => seq![],
    }
}

/// The change that a note which only the new version has gives rise to: a
/// notable change under `tag`, described by `lead` and the note.
pub open spec fn note_changes(
    name: Seq<char>,
    tag: Seq<char>,
    lead: Seq<char>,
    old: Option<Seq<char>>,
    new: Option<Seq<char>>,
) -> Seq<ChangeModel> {
    match new {
        Some(note) => if old.is_none() {
            seq![
                ChangeModel {
                    function_name: name,
                    change_type: ChangeType::Notable,
                    tag,
                    description: lead + note,
                    old_value: None,
                    new_value: Some(note),
                },
            ]
        } else {
            seq![]
        },
        None => seq![],
    }
}

/// The changes between two versions of a function, in the order of the
/// rules: preconditions, postconditions, effects, idempotence, intent,
/// confidence, a new request for review, a new deprecation. They are
/// reported under the name of the new version.
pub open spec fn function_changes(old: FunctionModel, new: FunctionModel) -> Seq<ChangeModel> {
    pre_changes(new.name, old.pre, new.pre) + post_changes(new.name, old.post, new.post)
        + effects_changes(new.name, old.effects, new.effects) + idempotent_changes(
        new.name,
        old.idempotent,
        new.idempotent,
    ) + intent_changes(new.name, old.intent, new.intent) + confidence_changes(
        new.name,
        old.confidence,
        new.confidence,
    ) + note_changes(
        new.name,
        "@ai:needs_review"@,
        "Review flag added: "@,
        old.needs_review,
        new.needs_review,
    ) + note_changes(
        new.name,
        "@ai:deprecated"@,
        "Function deprecated: "@,
        old.deprecated,
        new.deprecated,
    )
}

/// The index of the last of `functions` that is named `name`.
pub open spec fn last_named(functions: Seq<FunctionModel>, name: Seq<char>) -> Option<int>
    decreases functions.len(),
{
    if functions.len() == 0 {
        None
    } else if functions.last().name == name {
        Some(functions.len() - 1)
    } else {
        last_named(functions.drop_last(), name)
    }
}

/// The changes that the function at index `j` of the new version adds to
/// the diff. The function counts if it is the last of its name, and is
/// compared with the last function of that name in the old version.
pub open spec fn changes_at(old: Seq<FunctionModel>, new: Seq<FunctionModel>, j: int) -> Seq<
    ChangeModel,
>
    recommends
        0 <= j < new.len(),
{
    if last_named(new, new[j].name) == Some(j) {
        match last_named(old, new[j].name) {
            Some(i) => function_changes(old[i], new[j]),
            None => seq![],
        }
    } else {
        seq![]
    }
}

/// The changes that the first `upto` functions of the new version add.
pub open spec fn diff_changes(old: Seq<FunctionModel>, new: Seq<FunctionModel>, upto: int) -> Seq<
    ChangeModel,
>
    decreases upto,
{
    if upto <= 0 {
        seq![]
    } else {
        diff_changes(old, new, upto - 1) + changes_at(old, new, upto - 1)
    }
}

/// The diff between two versions of a file. It is filed under the path of
/// the new version.
pub open spec fn diff_of(old: ParsedFileModel, new: ParsedFileModel) -> DiffModel {
    counted(
        new.path,
        diff_changes(old.module.functions, new.module.functions, new.module.functions.len() as int),
    )
}

/// Appends a change that is given by its parts.
fn report(
    result: &mut DiffResult,
    name: &str,
    change_type: ChangeType,
    tag: &str,
    description: String,
    old_value: Option<String>,
    new_value: Option<String>,
)
    requires
        old(result).wf(),
    ensures
        final(result).wf(),
        final(result)@.file_path == old(result)@.file_path,
        final(result)@.changes == old(result)@.changes + seq![
            ChangeModel {
                function_name: name@,
                change_type,
                tag: tag@,
                description: description@,
                old_value: old_value.deep_view(),
                new_value: new_value.deep_view(),
            },
        ],
{
    let change = make_change(name, change_type, tag, description, old_value, new_value);
    result.add_change(change);
    assert(old(result)@.changes.push(change@) =~= old(result)@.changes + seq![change@]);
}

/// The word for a truth value that may be missing.
fn flag_string(b: Option<bool>) -> (s: Option<String>)
    ensures
        s.deep_view() == flag_text(b),
{
    match b {
        Some(true) => Some(String::from_str("true")),
        Some(false) => Some(String::from_str("false")),
        None => None,
    }
}

/// Compares the idempotence of two versions of a function.
fn compare_idempotent(result: &mut DiffResult, name: &str, earlier: Option<bool>, later: Option<bool>)
    requires
        old(result).wf(),
    ensures
        final(result).wf(),
        final(result)@.file_path == old(result)@.file_path,
        final(result)@.changes == old(result)@.changes + idempotent_changes(name@, earlier, later),
{
    let was = match earlier {
        Some(true) => true,
        _ => false,
    };
    let now = match later {
        Some(true) => true,
        _ => false,
    };
    if was && !now {
        report(
            result,
            name,
            ChangeType::Breaking,
            "@ai:idempotent",
            String::from_str("Function is no longer idempotent"),
            Some(String::from_str("true")),
            flag_string(later),
        );
    } else if !was && now {
        report(
            result,
            name,
            ChangeType::NonBreaking,
            "@ai:idempotent",
            String::from_str("Function is now idempotent"),
            flag_string(earlier),
            Some(String::from_str("true")),
        );
    } else {
        assert(result@.changes + Seq::<ChangeModel>::empty() =~= result@.changes);
    }
}

/// Compares the intent of two versions of a function.
fn compare_intent(result: &mut DiffResult, name: &str, earlier: &Option<String>, later: &Option<String>)
    requires
        old(result).wf(),
    ensures
        final(result).wf(),
        final(result)@.file_path == old(result)@.file_path,
        final(result)@.changes == old(result)@.changes + intent_changes(
            name@,
            earlier.deep_view(),
            later.deep_view(),
        ),
{
    match (earlier, later) {
        (Some(was), Some(now)) => {
            if !equals(was.as_str(), now.as_str()) {
                report(
                    result,
                    name,
                    ChangeType::Notable,
                    "@ai:intent",
                    String::from_str("Intent description changed"),
                    Some(was.clone()),
                    Some(now.clone()),
                );
                return ;
            }
        },
        _ => {},
    }
    assert(result@.changes + Seq::<ChangeModel>::empty() =~= result@.changes);
}

/// Compares the confidence of two versions of a function.
fn compare_confidence(
    result: &mut DiffResult,
    name: &str,
    earlier: Option<Confidence>,
    later: Option<Confidence>,
)
    requires
        old(result).wf(),
    ensures
        final(result).wf(),
        final(result)@.file_path == old(result)@.file_path,
        final(result)@.changes == old(result)@.changes + confidence_changes(
            name@,
            earlier.deep_view(),
            later.deep_view(),
        ),
{
    match (earlier, later) {
        (Some(was), Some(now)) => {
            if was.differs_significantly(&now) {
                let dropped = now.below(&was);
                let was_text = was.to_text();
                let now_text = now.to_text();
                let mut description = String::from_str("Confidence ");
                description.append(
                    if dropped {
                        "decreased"
                    } else {
                        "increased"
                    },
                );
                description.append(" from ");
                description.append(was_text.as_str());
                description.append(" to ");
                description.append(now_text.as_str());
                report(
                    result,
                    name,
                    if dropped {
                        ChangeType::Notable
                    } else {
                        ChangeType::NonBreaking
                    },
                    "@ai:confidence",
                    description,
                    Some(was_text),
                    Some(now_text),
                );
                return ;
            }
        },
        _ => {},
    }
    assert(result@.changes + Seq::<ChangeModel>::empty() =~= result@.changes);
}

/// Reports a note that only the new version has.
fn compare_note(
    result: &mut DiffResult,
    name: &str,
    tag: &str,
    lead: &str,
    earlier: &Option<String>,
    later: &Option<String>,
)
    requires
        old(result).wf(),
    ensures
        final(result).wf(),
        final(result)@.file_path == old(result)@.file_path,
        final(result)@.changes == old(result)@.changes + note_changes(
            name@,
            tag@,
            lead@,
            earlier.deep_view(),
            later.deep_view(),
        ),
{
    match later {
        Some(note) => {
            if earlier.is_none() {
                report(
                    result,
                    name,
                    ChangeType::Notable,
                    tag,
                    String::from_str(lead).concat(note.as_str()),
                    None,
                    Some(note.clone()),
                );
                return ;
            }
        },
        None => {},
    }
    assert(result@.changes + Seq::<ChangeModel>::empty() =~= result@.changes);
}

/// Appending eight lists one by one appends their concatenation.
proof fn lemma_appended_in_order(
    start: Seq<ChangeModel>,
    a: Seq<ChangeModel>,
    b: Seq<ChangeModel>,
    c: Seq<ChangeModel>,
    d: Seq<ChangeModel>,
    e: Seq<ChangeModel>,
    f: Seq<ChangeModel>,
    g: Seq<ChangeModel>,
    h: Seq<ChangeModel>,
)
    ensures
        start + a + b + c + d + e + f + g + h == start + (a + b + c + d + e + f + g + h),
{
    assert(start + a + b + c + d + e + f + g + h =~= start + (a + b + c + d + e + f + g + h));
}

/// Compares two versions of a function and appends what changed.
pub fn compare_functions(result: &mut DiffResult, earlier: &FunctionAnnotations, later: &FunctionAnnotations)
    requires
        old(result).wf(),
    ensures
        final(result).wf(),
        final(result)@.file_path == old(result)@.file_path,
        final(result)@.changes == old(result)@.changes + function_changes(earlier@, later@),
{
    let name = later.name.as_str();
    let ghost start = result@.changes;
    compare_preconditions(result, name, &earlier.pre, &later.pre);
    let ghost s1 = result@.changes;
    compare_postconditions(result, name, &earlier.post, &later.post);
    let ghost s2 = result@.changes;
    compare_effects(result, name, &earlier.effects, &later.effects);
    let ghost s3 = result@.changes;
    compare_idempotent(result, name, earlier.idempotent, later.idempotent);
    let ghost s4 = result@.changes;
    compare_intent(result, name, &earlier.intent, &later.intent);
    let ghost s5 = result@.changes;
    compare_confidence(result, name, earlier.confidence, later.confidence);
    let ghost s6 = result@.changes;
    compare_note(
        result,
        name,
        "@ai:needs_review",
        "Review flag added: ",
        &earlier.needs_review,
        &later.needs_review,
    );
    let ghost s7 = result@.changes;
    compare_note(
        result,
        name,
        "@ai:deprecated",
        "Function deprecated: ",
        &earlier.deprecated,
        &later.deprecated,
    );
    proof {
        let f = earlier@;
        let g = later@;
        let a1 = pre_changes(g.name, f.pre, g.pre);
        let a2 = post_changes(g.name, f.post, g.post);
        let a3 = effects_changes(g.name, f.effects, g.effects);
        let a4 = idempotent_changes(g.name, f.idempotent, g.idempotent);
        let a5 = intent_changes(g.name, f.intent, g.intent);
        let a6 = confidence_changes(g.name, f.confidence, g.confidence);
        let a7 = note_changes(
            g.name,
            "@ai:needs_review"@,
            "Review flag added: "@,
            f.needs_review,
            g.needs_review,
        );
        let a8 = note_changes(
            g.name,
            "@ai:deprecated"@,
            "Function deprecated: "@,
            f.deprecated,
            g.deprecated,
        );
        assert(s1 == start + a1);
        assert(s2 == s1 + a2);
        assert(s3 == s2 + a3);
        assert(s4 == s3 + a4);
        assert(s5 == s4 + a5);
        assert(s6 == s5 + a6);
        assert(s7 == s6 + a7);
        assert(result@.changes == s7 + a8);
        lemma_appended_in_order(start, a1, a2, a3, a4, a5, a6, a7, a8);
        assert(function_changes(f, g) == a1 + a2 + a3 + a4 + a5 + a6 + a7 + a8);
    }
}

/// The names of the functions, as characters.
fn function_names(functions: &Vec<FunctionAnnotations>) -> (names: Vec<Vec<char>>)
    ensures
        names@.len() == functions@.len(),
        forall|i: int| 0 <= i < names@.len() ==> (#[trigger] names@[i])@ == functions@[i]@.name,
{
    let mut names: Vec<Vec<char>> = Vec::new();
    let mut i: usize = 0;
    while i < functions.len()
        invariant
            i <= functions@.len(),
            names@.len() == i,
            forall|k: int| 0 <= k < i ==> (#[trigger] names@[k])@ == functions@[k]@.name,
        decreases functions@.len() - i,
    {
        names.push(to_chars(functions[i].name.as_str()));
        i += 1;
    }
    names
}

/// The index of the last of `functions`, whose names are `names`, that is
/// named `name`.
fn find_last_named(
    functions: &Vec<FunctionAnnotations>,
    names: &Vec<Vec<char>>,
    name: &Vec<char>,
) -> (r: Option<usize>)
    requires
        names@.len() == functions@.len(),
        forall|i: int| 0 <= i < names@.len() ==> (#[trigger] names@[i])@ == functions@[i]@.name,
    ensures
        match r {
            Some(i) => last_named(functions.deep_view(), name@) == Some(i as int) && i
                < functions@.len(),
            None => last_named(functions.deep_view(), name@).is_none(),
        },
{
    let mut k: usize = names.len();
    assert(functions.deep_view().take(k as int) =~= functions.deep_view());
    while k > 0
        invariant
            k <= functions@.len(),
            names@.len() == functions@.len(),
            forall|i: int| 0 <= i < names@.len() ==> (#[trigger] names@[i])@ == functions@[i]@.name,
            last_named(functions.deep_view(), name@) == last_named(
                functions.deep_view().take(k as int),
                name@,
            ),
        decreases k,
    {
        let ghost upto = functions.deep_view().take(k as int);
        assert(upto.last() == functions@[k - 1]@);
        assert(upto.drop_last() =~= functions.deep_view().take(k - 1));
        if chars_equal(&names[k - 1], name) {
            return Some(k - 1);
        }
        k -= 1;
    }
    None
}

/// Compares two versions of a file and reports how the contract of each
/// function changed.
pub fn diff_parsed(old: &ParsedFile, new: &ParsedFile) -> (result: DiffResult)
    ensures
        result@ == diff_of(old@, new@),
{
    let mut result = DiffResult::new(new.path.clone());
    let old_names = function_names(&old.module.functions);
    let new_names = function_names(&new.module.functions);
    let mut j: usize = 0;
    let ghost old_functions = old@.module.functions;
    let ghost new_functions = new@.module.functions;
    while j < new.module.functions.len()
        invariant
            j <= new.module.functions@.len(),
            old_functions == old.module.functions.deep_view(),
            new_functions == new.module.functions.deep_view(),
            old_names@.len() == old.module.functions@.len(),
            new_names@.len() == new.module.functions@.len(),
            forall|i: int|
                0 <= i < old_names@.len() ==> (#[trigger] old_names@[i])@
                    == old.module.functions@[i]@.name,
            forall|i: int|
                0 <= i < new_names@.len() ==> (#[trigger] new_names@[i])@
                    == new.module.functions@[i]@.name,
            result.wf(),
            result@.file_path == new.path@,
            result@.changes == diff_changes(old_functions, new_functions, j as int),
        decreases new.module.functions@.len() - j,
    {
        let func = &new.module.functions[j];
        let name = &new_names[j];
        assert(new_functions[j as int] == func@);
        let ghost before = result@.changes;
        let mut compared = false;
        match find_last_named(&new.module.functions, &new_names, name) {
            Some(last) => {
                if last == j {
                    match find_last_named(&old.module.functions, &old_names, name) {
                        Some(i) => {
                            assert(old_functions[i as int] == old.module.functions@[i as int]@);
                            compare_functions(&mut result, &old.module.functions[i], func);
                            compared = true;
                        },
                        None => {},
                    }
                }
            },
            None => {},
        }
        proof {
            if !compared {
                assert(before + Seq::<ChangeModel>::empty() =~= before);
            }
        }
        j += 1;
    }
    result
}

/// Compares two versions of a file, each given by its path and its text.
/// The old version is read first; the first version whose path stands for no
/// supported language ends the comparison with its failure.
pub fn diff_files(old_path: &str, old_content: &str, new_path: &str, new_content: &str) -> (r: Result<
    DiffResult,
    crate::error::Error,
>)
    ensures
        match crate::extractor::extracted_file(old_path@, old_content@) {
            Ok(old) => match crate::extractor::extracted_file(new_path@, new_content@) {
                Ok(new) => r matches Ok(d) && d@ == diff_of(old, new),
                Err(e) => r matches Err(x) && x@ == e,
            },
            Err(e) => r matches Err(x) && x@ == e,
        },
{
    let old = match crate::extractor::extract_file(old_path, old_content) {
        Ok(file) => file,
        Err(e) => {
            return Err(e);
        },
    };
    let new = match crate::extractor::extract_file(new_path, new_content) {
        Ok(file) => file,
        Err(e) => {
            return Err(e);
        },
    };
    Ok(diff_parsed(&old, &new))
}

/// Whether two versions of a function agree in everything that the
/// comparison looks at.
pub open spec fn same_contract(old: FunctionModel, new: FunctionModel) -> bool {
    &&& old.pre == new.pre
    &&& old.post == new.post
    &&& old.effects == new.effects
    &&& old.idempotent == new.idempotent
    &&& old.intent == new.intent
    &&& old.confidence == new.confidence
    &&& old.needs_review == new.needs_review
    &&& old.deprecated == new.deprecated
}

/// A rule finds nothing in a list whose entries all stand in the other list.
pub proof fn lemma_nothing_listed(
    rule: ListRule,
    name: Seq<char>,
    items: Seq<Seq<char>>,
    other: Seq<Seq<char>>,
)
    requires
        forall|i: int| 0 <= i < items.len() ==> other.contains(#[trigger] items[i]),
    ensures
        listed_changes(rule, name, items, other) == Seq::<ChangeModel>::empty(),
    decreases items.len(),
{
    if items.len() > 0 {
        assert forall|i: int| 0 <= i < items.drop_last().len() implies other.contains(
            #[trigger] items.drop_last()[i],
        ) by {
            assert(items.drop_last()[i] == items[i]);
        }
        lemma_nothing_listed(rule, name, items.drop_last(), other);
        assert(other.contains(items[items.len() - 1]));
    }
}

/// Two versions of a function that agree in their contract give no change.
pub proof fn lemma_same_contract_no_changes(old: FunctionModel, new: FunctionModel)
    requires
        same_contract(old, new),
    ensures
        function_changes(old, new) == Seq::<ChangeModel>::empty(),
{
    let n = new.name;
    assert forall|i: int| 0 <= i < new.pre.len() implies new.pre.contains(#[trigger] new.pre[i]) by {}
    assert forall|i: int| 0 <= i < new.post.len() implies new.post.contains(
        #[trigger] new.post[i],
    ) by {}
    assert forall|i: int| 0 <= i < new.effects.len() implies new.effects.contains(
        #[trigger] new.effects[i],
    ) by {}
    lemma_nothing_listed(ListRule::PreconditionAdded, n, new.pre, old.pre);
    lemma_nothing_listed(ListRule::PreconditionRemoved, n, old.pre, new.pre);
    lemma_nothing_listed(ListRule::PostconditionRemoved, n, old.post, new.post);
    lemma_nothing_listed(ListRule::PostconditionAdded, n, new.post, old.post);
    lemma_nothing_listed(ListRule::EffectAdded, n, new.effects, old.effects);
    lemma_nothing_listed(ListRule::EffectRemoved, n, old.effects, new.effects);
    assert(function_changes(old, new) =~= Seq::<ChangeModel>::empty());
}

/// Where `last_named` finds a function, it has the name that was asked for.
pub proof fn lemma_last_named_is_named(functions: Seq<FunctionModel>, name: Seq<char>)
    ensures
        last_named(functions, name) matches Some(i) ==> 0 <= i < functions.len()
            && functions[i].name == name,
    decreases functions.len(),
{
    if functions.len() > 0 && functions.last().name != name {
        lemma_last_named_is_named(functions.drop_last(), name);
        match last_named(functions.drop_last(), name) {
            Some(i) => {
                assert(functions.drop_last()[i] == functions[i]);
            },
            None => {},
        }
    }
}

/// Comparing two versions of a file in which no function changed its
/// contract gives no change at all, and so three counts of zero.
pub proof fn lemma_unchanged_functions_no_changes(old: ParsedFileModel, new: ParsedFileModel)
    requires
        forall|i: int, j: int|
            0 <= i < old.module.functions.len() && 0 <= j < new.module.functions.len()
                && old.module.functions[i].name == new.module.functions[j].name ==> same_contract(
                #[trigger] old.module.functions[i],
                #[trigger] new.module.functions[j],
            ),
    ensures
        diff_of(old, new).changes == Seq::<ChangeModel>::empty(),
        diff_of(old, new).breaking_count == 0,
        diff_of(old, new).notable_count == 0,
        diff_of(old, new).non_breaking_count == 0,
{
    lemma_no_changes_upto(old.module.functions, new.module.functions, new.module.functions.len() as int);
}

/// The first `upto` functions add no change where no function changed.
proof fn lemma_no_changes_upto(old: Seq<FunctionModel>, new: Seq<FunctionModel>, upto: int)
    requires
        0 <= upto <= new.len(),
        forall|i: int, j: int|
            0 <= i < old.len() && 0 <= j < new.len() && old[i].name == new[j].name
                ==> same_contract(#[trigger] old[i], #[trigger] new[j]),
    ensures
        diff_changes(old, new, upto) == Seq::<ChangeModel>::empty(),
    decreases upto,
{
    if upto > 0 {
        lemma_no_changes_upto(old, new, upto - 1);
        let j = upto - 1;
        lemma_last_named_is_named(old, new[j].name);
        match last_named(old, new[j].name) {
            Some(i) => {
                lemma_same_contract_no_changes(old[i], new[j]);
            },
            None => {},
        }
        assert(changes_at(old, new, j) == Seq::<ChangeModel>::empty());
        assert(Seq::<ChangeModel>::empty() + Seq::<ChangeModel>::empty() =~= Seq::<
            ChangeModel,
        >::empty());
    }
}

/// A kind has a positive count exactly if a change of that kind was found.
pub proof fn lemma_count_positive(changes: Seq<ChangeModel>, kind: ChangeType)
    ensures
        count_kind(changes, kind) > 0 <==> exists|i: int|
            0 <= i < changes.len() && (#[trigger] changes[i]).change_type == kind,
    decreases changes.len(),
{
    if changes.len() > 0 {
        lemma_count_positive(changes.drop_last(), kind);
        if count_kind(changes, kind) > 0 {
            if changes.last().change_type == kind {
                assert(changes[changes.len() - 1].change_type == kind);
            } else {
                let i = choose|i: int|
                    0 <= i < changes.drop_last().len() && (#[trigger] changes.drop_last()[i]).change_type
                        == kind;
                assert(changes[i].change_type == kind);
            }
        }
        if exists|i: int| 0 <= i < changes.len() && (#[trigger] changes[i]).change_type == kind {
            let i = choose|i: int| 0 <= i < changes.len() && (#[trigger] changes[i]).change_type == kind;
            if i < changes.len() - 1 {
                assert(changes.drop_last()[i].change_type == kind);
            }
        }
    }
}

/// A rule reports every entry that the other list lacks and that the rule
/// does not pass over.
pub proof fn lemma_rule_reports_each(
    rule: ListRule,
    name: Seq<char>,
    items: Seq<Seq<char>>,
    other: Seq<Seq<char>>,
    i: int,
)
    requires
        0 <= i < items.len(),
        !other.contains(items[i]),
        !rule_skips(rule, items[i]),
    ensures
        listed_changes(rule, name, items, other).contains(rule_change(rule, name, items[i])),
    decreases items.len(),
{
    let all = listed_changes(rule, name, items, other);
    let before = listed_changes(rule, name, items.drop_last(), other);
    if i == items.len() - 1 {
        assert(all == before.push(rule_change(rule, name, items[i])));
        assert(all[all.len() - 1] == rule_change(rule, name, items[i]));
    } else {
        assert(items.drop_last()[i] == items[i]);
        lemma_rule_reports_each(rule, name, items.drop_last(), other, i);
        let at = choose|at: int| 0 <= at < before.len() && before[at] == rule_change(rule, name, items[i]);
        assert(all[at] == before[at]);
    }
}

/// A rule reports nothing else: each of its findings is about an entry
/// that the other list lacks and that the rule does not pass over.
pub proof fn lemma_rule_reports_only(
    rule: ListRule,
    name: Seq<char>,
    items: Seq<Seq<char>>,
    other: Seq<Seq<char>>,
    k: int,
)
    requires
        0 <= k < listed_changes(rule, name, items, other).len(),
    ensures
        exists|i: int|
            0 <= i < items.len() && !other.contains(#[trigger] items[i]) && !rule_skips(rule, items[i])
                && listed_changes(rule, name, items, other)[k] == rule_change(rule, name, items[i]),
    decreases items.len(),
{
    let all = listed_changes(rule, name, items, other);
    let before = listed_changes(rule, name, items.drop_last(), other);
    if k < before.len() {
        lemma_rule_reports_only(rule, name, items.drop_last(), other, k);
        let i = choose|i: int|
            0 <= i < items.drop_last().len() && !other.contains(#[trigger] items.drop_last()[i])
                && !rule_skips(rule, items.drop_last()[i]) && before[k] == rule_change(
                rule,
                name,
                items.drop_last()[i],
            );
        assert(items[i] == items.drop_last()[i]);
        assert(all[k] == before[k]);
    } else {
        let i = items.len() - 1;
        assert(!other.contains(items[i]));
    }
}

/// A precondition that only the new version has is reported as a breaking
/// change; one that only the old version has is reported as a change that
/// breaks nothing.
pub proof fn lemma_precondition_changes(old: FunctionModel, new: FunctionModel, condition: Seq<char>)
    ensures
        new.pre.contains(condition) && !old.pre.contains(condition) ==> function_changes(
            old,
            new,
        ).contains(rule_change(ListRule::PreconditionAdded, new.name, condition)),
        old.pre.contains(condition) && !new.pre.contains(condition) ==> function_changes(
            old,
            new,
        ).contains(rule_change(ListRule::PreconditionRemoved, new.name, condition)),
{
    let added = listed_changes(ListRule::PreconditionAdded, new.name, new.pre, old.pre);
    let removed = listed_changes(ListRule::PreconditionRemoved, new.name, old.pre, new.pre);
    let all = function_changes(old, new);
    if new.pre.contains(condition) && !old.pre.contains(condition) {
        let i = choose|i: int| 0 <= i < new.pre.len() && new.pre[i] == condition;
        lemma_rule_reports_each(ListRule::PreconditionAdded, new.name, new.pre, old.pre, i);
        let change = rule_change(ListRule::PreconditionAdded, new.name, condition);
        let at = choose|at: int| 0 <= at < added.len() && added[at] == change;
        assert(all[at] == change);
    }
    if old.pre.contains(condition) && !new.pre.contains(condition) {
        let i = choose|i: int| 0 <= i < old.pre.len() && old.pre[i] == condition;
        lemma_rule_reports_each(ListRule::PreconditionRemoved, new.name, old.pre, new.pre, i);
        let change = rule_change(ListRule::PreconditionRemoved, new.name, condition);
        let at = choose|at: int| 0 <= at < removed.len() && removed[at] == change;
        assert(all[added.len() + at] == change);
    }
}

/// A postcondition that only the old version has is reported as a breaking
/// change; one that only the new version has is reported as a change that
/// breaks nothing.
pub proof fn lemma_postcondition_changes(old: FunctionModel, new: FunctionModel, condition: Seq<char>)
    ensures
        old.post.contains(condition) && !new.post.contains(condition) ==> function_changes(
            old,
            new,
        ).contains(rule_change(ListRule::PostconditionRemoved, new.name, condition)),
        new.post.contains(condition) && !old.post.contains(condition) ==> function_changes(
            old,
            new,
        ).contains(rule_change(ListRule::PostconditionAdded, new.name, condition)),
{
    let before = pre_changes(new.name, old.pre, new.pre);
    let removed = listed_changes(ListRule::PostconditionRemoved, new.name, old.post, new.post);
    let added = listed_changes(ListRule::PostconditionAdded, new.name, new.post, old.post);
    let all = function_changes(old, new);
    if old.post.contains(condition) && !new.post.contains(condition) {
        let i = choose|i: int| 0 <= i < old.post.len() && old.post[i] == condition;
        lemma_rule_reports_each(ListRule::PostconditionRemoved, new.name, old.post, new.post, i);
        let change = rule_change(ListRule::PostconditionRemoved, new.name, condition);
        let at = choose|at: int| 0 <= at < removed.len() && removed[at] == change;
        assert(all[before.len() + at] == change);
    }
    if new.post.contains(condition) && !old.post.contains(condition) {
        let i = choose|i: int| 0 <= i < new.post.len() && new.post[i] == condition;
        lemma_rule_reports_each(ListRule::PostconditionAdded, new.name, new.post, old.post, i);
        let change = rule_change(ListRule::PostconditionAdded, new.name, condition);
        let at = choose|at: int| 0 <= at < added.len() && added[at] == change;
        assert(all[before.len() + removed.len() + at] == change);
    }
}

/// A step from pure to impure, or back, is reported as exactly one change of
/// the effects, and no effect is reported on its own.
pub proof fn lemma_purity_step_is_one_change(
    name: Seq<char>,
    old_effects: Seq<Seq<char>>,
    new_effects: Seq<Seq<char>>,
)
    requires
        is_pure(old_effects) != is_pure(new_effects),
    ensures
        effects_changes(name, old_effects, new_effects).len() == 1,
        effects_changes(name, old_effects, new_effects)[0].change_type == if is_pure(old_effects) {
            ChangeType::Breaking
        } else {
            ChangeType::NonBreaking
        },
        is_pure(old_effects) ==> effects_changes(name, old_effects, new_effects)[0].old_value == Some(
            "pure"@,
        ),
{
}

} // verus!
