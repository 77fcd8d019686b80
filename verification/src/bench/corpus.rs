//! The corpus of tasks: its order, and the selection of tasks from it.
//! Reading the task files is done outside the library.

use crate::bench::config::{admits, FilterConfig};
use crate::bench::task::{category_name, difficulty_name, language_name, Task, TaskModel};
use crate::text::{equals, to_chars};
use vstd::prelude::*;

verus! {

/// Orders and selects the tasks of a corpus.
#[derive(Debug, Clone, Copy)]
pub struct CorpusLoader;

/// Whether the text `a` stands before `b`, or is `b`, in the order of the
/// dictionary, letters being ordered by their code.
pub open spec fn text_le(a: Seq<char>, b: Seq<char>) -> bool
    decreases a.len(),
{
    if a.len() == 0 {
        true
    } else if b.len() == 0 {
        false
    } else if a[0] != b[0] {
        (a[0] as u32) < (b[0] as u32)
    } else {
        text_le(a.drop_first(), b.drop_first())
    }
}

/// The sorted tasks with one more task put in its place: behind every task
/// whose identifier does not stand after its own.
pub open spec fn inserted(sorted: Seq<TaskModel>, task: TaskModel) -> Seq<TaskModel>
    decreases sorted.len(),
{
    if sorted.len() == 0 {
        seq![task]
    } else if text_le(sorted.last().id, task.id) {
        sorted.push(task)
    } else {
        inserted(sorted.drop_last(), task).push(sorted.last())
    }
}

/// The tasks in the order of their identifiers; tasks with the same
/// identifier keep their order.
pub open spec fn sorted_by_id(tasks: Seq<TaskModel>) -> Seq<TaskModel>
    decreases tasks.len(),
{
    if tasks.len() == 0 {
        seq![]
    } else {
        inserted(sorted_by_id(tasks.drop_last()), tasks.last())
    }
}

/// Whether a filter takes a task.
pub open spec fn passes(filter: FilterConfig, task: TaskModel) -> bool {
    admits(filter.categories.deep_view(), category_name(task.category)) && admits(
        filter.languages.deep_view(),
        language_name(task.language),
    ) && admits(filter.difficulties.deep_view(), difficulty_name(task.difficulty)) && admits(
        filter.task_ids.deep_view(),
        task.id,
    )
}

/// The first of `tasks[from..]` whose identifier is `id`.
pub open spec fn first_with_id(tasks: Seq<TaskModel>, id: Seq<char>, from: int) -> Option<TaskModel>
    decreases tasks.len() - from,
{
    if from < 0 || from >= tasks.len() {
        None
    } else if tasks[from].id == id {
        Some(tasks[from])
    } else {
        first_with_id(tasks, id, from + 1)
    }
}

/// Whether the characters `a` stand before `b`, or are the same.
fn chars_le(a: &Vec<char>, b: &Vec<char>) -> (r: bool)
    ensures
        r == text_le(a@, b@),
{
    let mut i: usize = 0;
    assert(a@.skip(0) =~= a@);
    assert(b@.skip(0) =~= b@);
    while i < a.len() && i < b.len()
        invariant
            i <= a@.len(),
            i <= b@.len(),
            text_le(a@, b@) == text_le(a@.skip(i as int), b@.skip(i as int)),
        decreases a@.len() - i,
    {
        let ghost x = a@.skip(i as int);
        let ghost y = b@.skip(i as int);
        assert(x[0] == a@[i as int]);
        assert(y[0] == b@[i as int]);
        assert(x.drop_first() =~= a@.skip(i as int + 1));
        assert(y.drop_first() =~= b@.skip(i as int + 1));
        if a[i] != b[i] {
            return (a[i] as u32) < (b[i] as u32);
        }
        i += 1;
    }
    i >= a.len()
}

/// Whether the text `a` stands before `b`, or is `b`.
pub fn precedes(a: &str, b: &str) -> (r: bool)
    ensures
        r == text_le(a@, b@),
{
    let x = to_chars(a);
    let y = to_chars(b);
    chars_le(&x, &y)
}

/// Scanning from the end down to `pos`, past tasks that stand after `task`,
/// leaves what is to be inserted into the tasks before `pos`.
proof fn lemma_inserted_behind(sorted: Seq<TaskModel>, task: TaskModel, pos: int)
    requires
        0 <= pos <= sorted.len(),
        forall|k: int| pos <= k < sorted.len() ==> !text_le(#[trigger] sorted[k].id, task.id),
    ensures
        inserted(sorted, task) == inserted(sorted.take(pos), task) + sorted.skip(pos),
    decreases sorted.len() - pos,
{
    if pos == sorted.len() {
        assert(sorted.take(pos) =~= sorted);
        assert(inserted(sorted, task) + sorted.skip(pos) =~= inserted(sorted, task));
    } else {
        let shorter = sorted.drop_last();
        assert(!text_le(sorted[sorted.len() - 1].id, task.id));
        assert forall|k: int| pos <= k < shorter.len() implies !text_le(
            #[trigger] shorter[k].id,
            task.id,
        ) by {
            assert(shorter[k] == sorted[k]);
        }
        lemma_inserted_behind(shorter, task, pos);
        assert(shorter.take(pos) =~= sorted.take(pos));
        assert((inserted(sorted.take(pos), task) + shorter.skip(pos)).push(sorted.last())
            =~= inserted(sorted.take(pos), task) + sorted.skip(pos));
    }
}

impl CorpusLoader {
    /// A corpus loader.
    pub fn new() -> (loader: CorpusLoader) {
        CorpusLoader
    }

    /// The tasks in the order of their identifiers.
    pub fn sort_tasks(tasks: &Vec<Task>) -> (sorted: Vec<Task>)
        ensures
            sorted.deep_view() == sorted_by_id(tasks.deep_view()),
    {
        let mut sorted: Vec<Task> = Vec::new();
        let ghost all = tasks.deep_view();
        assert(sorted.deep_view() =~= sorted_by_id(all.take(0)));
        let mut i: usize = 0;
        while i < tasks.len()
            invariant
                i <= tasks@.len(),
                all == tasks.deep_view(),
                sorted.deep_view() == sorted_by_id(all.take(i as int)),
            decreases tasks@.len() - i,
        {
            let ghost before = sorted.deep_view();
            let task = tasks[i].clone();
            proof {
                assert(task@ == all[i as int]);
                assert(all.take(i as int + 1).drop_last() =~= all.take(i as int));
                assert(all.take(i as int + 1).last() == task@);
            }
            let key = to_chars(task.id.as_str());
            let mut pos: usize = sorted.len();
            while pos > 0 && !chars_le(&to_chars(sorted[pos - 1].id.as_str()), &key)
                invariant
                    pos <= sorted@.len(),
                    key@ == task.id@,
                    sorted.deep_view() == before,
                    forall|k: int|
                        pos <= k < before.len() ==> !text_le(#[trigger] before[k].id, task@.id),
                decreases pos,
            {
                assert(before[pos - 1].id == sorted@[pos - 1].id@);
                pos -= 1;
            }
            proof {
                lemma_inserted_behind(before, task@, pos as int);
                if pos > 0 {
                    assert(before[pos - 1].id == sorted@[pos - 1].id@);
                    assert(before.take(pos as int).last() == before[pos - 1]);
                }
                assert(inserted(before.take(pos as int), task@) == before.take(pos as int).push(task@));
            }
            sorted.insert(pos, task);
            proof {
                assert(sorted.deep_view() =~= before.take(pos as int).push(task@) + before.skip(
                    pos as int,
                ));
            }
            i += 1;
        }
        assert(all.take(i as int) =~= all);
        sorted
    }

    /// The tasks that a filter takes, in their order.
    pub fn filter_tasks(tasks: &Vec<Task>, filter: &FilterConfig) -> (kept: Vec<Task>)
        ensures
            kept.deep_view() == tasks.deep_view().filter(|task: TaskModel| passes(*filter, task)),
    {
        let ghost keep = |task: TaskModel| passes(*filter, task);
        let ghost all = tasks.deep_view();
        let mut kept: Vec<Task> = Vec::new();
        let mut i: usize = 0;
        proof {
            reveal(Seq::filter);
            assert(all.take(0) =~= Seq::<TaskModel>::empty());
            assert(kept.deep_view() =~= Seq::<TaskModel>::empty());
        }
        while i < tasks.len()
            invariant
                i <= tasks@.len(),
                all == tasks.deep_view(),
                keep == |task: TaskModel| passes(*filter, task),
                kept.deep_view() == all.take(i as int).filter(keep),
            decreases tasks@.len() - i,
        {
            let task = &tasks[i];
            proof {
                reveal(Seq::filter);
                assert(task@ == all[i as int]);
                assert(all.take(i as int + 1).drop_last() =~= all.take(i as int));
                assert(all.take(i as int + 1).last() == task@);
            }
            if filter.matches(
                task.category.as_str(),
                task.language.as_str(),
                task.difficulty.as_str(),
                task.id.as_str(),
            ) {
                let ghost before = kept.deep_view();
                let copy = task.clone();
                kept.push(copy);
                assert(kept.deep_view() =~= before.push(task@));
            }
            i += 1;
        }
        assert(all.take(i as int) =~= all);
        kept
    }

    /// The first task whose identifier is `task_id`.
    pub fn find_by_id(tasks: &Vec<Task>, task_id: &str) -> (found: Option<Task>)
        ensures
            found.deep_view() == first_with_id(tasks.deep_view(), task_id@, 0),
    {
        let mut i: usize = 0;
        while i < tasks.len()
            invariant
                i <= tasks@.len(),
                first_with_id(tasks.deep_view(), task_id@, 0) == first_with_id(
                    tasks.deep_view(),
                    task_id@,
                    i as int,
                ),
            decreases tasks@.len() - i,
        {
            assert(tasks.deep_view()[i as int] == tasks@[i as int]@);
            if equals(tasks[i].id.as_str(), task_id) {
                return Some(tasks[i].clone());
            }
            i += 1;
        }
        None
    }
}

impl Default for CorpusLoader {
    fn default() -> (loader: CorpusLoader) {
        CorpusLoader
    }
}

/// Of two texts, one stands before the other or they are the same.
pub proof fn lemma_text_le_total(a: Seq<char>, b: Seq<char>)
    ensures
        text_le(a, b) || text_le(b, a),
    decreases a.len(),
{
    if a.len() > 0 && b.len() > 0 {
        if a[0] == b[0] {
            lemma_text_le_total(a.drop_first(), b.drop_first());
        } else {
            vstd::utf8::char_u32_cast(a[0], a[0] as u32);
            vstd::utf8::char_u32_cast(b[0], b[0] as u32);
        }
    }
}

/// Every text stands at its own place in the order.
pub proof fn lemma_text_le_reflexive(a: Seq<char>)
    ensures
        text_le(a, a),
    decreases a.len(),
{
    if a.len() > 0 {
        lemma_text_le_reflexive(a.drop_first());
    }
}

/// The order of texts is transitive.
pub proof fn lemma_text_le_transitive(a: Seq<char>, b: Seq<char>, c: Seq<char>)
    requires
        text_le(a, b),
        text_le(b, c),
    ensures
        text_le(a, c),
    decreases a.len(),
{
    if a.len() > 0 && b.len() > 0 && c.len() > 0 && a[0] == b[0] && b[0] == c[0] {
        lemma_text_le_transitive(a.drop_first(), b.drop_first(), c.drop_first());
    }
}

/// Whether the identifiers of the tasks never fall from one task to a
/// later one.
pub open spec fn is_ordered(tasks: Seq<TaskModel>) -> bool {
    forall|i: int, j: int|
        0 <= i < j < tasks.len() ==> text_le((#[trigger] tasks[i]).id, (#[trigger] tasks[j]).id)
}

/// Putting a task in its place adds that task and nothing else.
pub proof fn lemma_inserted_holds(sorted: Seq<TaskModel>, task: TaskModel)
    ensures
        inserted(sorted, task).to_multiset() == sorted.to_multiset().insert(task),
        inserted(sorted, task).len() == sorted.len() + 1,
    decreases sorted.len(),
{
    broadcast use vstd::seq_lib::group_to_multiset_ensures;

    if sorted.len() == 0 {
        assert(seq![task] =~= sorted.push(task));
    } else if text_le(sorted.last().id, task.id) {
    } else {
        lemma_inserted_holds(sorted.drop_last(), task);
        assert(sorted.drop_last().push(sorted.last()) =~= sorted);
        assert(inserted(sorted, task).to_multiset() =~= sorted.to_multiset().insert(task));
    }
}

/// Every task among the sorted tasks with one more was among them before,
/// or is the one that was put in.
proof fn lemma_inserted_members(sorted: Seq<TaskModel>, task: TaskModel, k: int)
    requires
        0 <= k < inserted(sorted, task).len(),
    ensures
        inserted(sorted, task)[k] == task || sorted.contains(inserted(sorted, task)[k]),
    decreases sorted.len(),
{
    if sorted.len() == 0 {
    } else if text_le(sorted.last().id, task.id) {
        if k < sorted.len() {
            assert(sorted[k] == inserted(sorted, task)[k]);
        }
    } else {
        let inner = inserted(sorted.drop_last(), task);
        lemma_inserted_holds(sorted.drop_last(), task);
        if k < inner.len() {
            lemma_inserted_members(sorted.drop_last(), task, k);
            if inner[k] != task {
                let at = choose|at: int|
                    0 <= at < sorted.drop_last().len() && sorted.drop_last()[at] == inner[k];
                assert(sorted[at] == inner[k]);
            }
        } else {
            assert(sorted[sorted.len() - 1] == inserted(sorted, task)[k]);
        }
    }
}

/// Putting a task in its place keeps ordered tasks ordered.
pub proof fn lemma_inserted_ordered(sorted: Seq<TaskModel>, task: TaskModel)
    requires
        is_ordered(sorted),
    ensures
        is_ordered(inserted(sorted, task)),
    decreases sorted.len(),
{
    let result = inserted(sorted, task);
    if sorted.len() == 0 {
    } else if text_le(sorted.last().id, task.id) {
        assert forall|i: int, j: int| 0 <= i < j < result.len() implies text_le(
            (#[trigger] result[i]).id,
            (#[trigger] result[j]).id,
        ) by {
            if j == sorted.len() {
                if i < sorted.len() - 1 {
                    assert(text_le(sorted[i].id, sorted[sorted.len() - 1].id));
                } else {
                    lemma_text_le_reflexive(sorted[i].id);
                }
                lemma_text_le_transitive(sorted[i].id, sorted.last().id, task.id);
            } else {
                assert(text_le(sorted[i].id, sorted[j].id));
            }
        }
    } else {
        let shorter = sorted.drop_last();
        let inner = inserted(shorter, task);
        assert forall|i: int, j: int| 0 <= i < j < shorter.len() implies text_le(
            (#[trigger] shorter[i]).id,
            (#[trigger] shorter[j]).id,
        ) by {
            assert(text_le(sorted[i].id, sorted[j].id));
        }
        lemma_inserted_ordered(shorter, task);
        lemma_inserted_holds(shorter, task);
        lemma_text_le_total(sorted.last().id, task.id);
        assert forall|i: int, j: int| 0 <= i < j < result.len() implies text_le(
            (#[trigger] result[i]).id,
            (#[trigger] result[j]).id,
        ) by {
            if j < inner.len() {
                assert(text_le(inner[i].id, inner[j].id));
            } else {
                lemma_inserted_members(shorter, task, i);
                if inner[i] != task {
                    let at = choose|at: int| 0 <= at < shorter.len() && shorter[at] == inner[i];
                    assert(text_le(sorted[at].id, sorted[sorted.len() - 1].id));
                }
            }
        }
    }
}

/// The sorted tasks are the given tasks in another order, and their
/// identifiers never fall.
pub proof fn lemma_sorted_by_id(tasks: Seq<TaskModel>)
    ensures
        is_ordered(sorted_by_id(tasks)),
        sorted_by_id(tasks).to_multiset() == tasks.to_multiset(),
        sorted_by_id(tasks).len() == tasks.len(),
    decreases tasks.len(),
{
    broadcast use vstd::seq_lib::group_to_multiset_ensures;

    if tasks.len() > 0 {
        lemma_sorted_by_id(tasks.drop_last());
        lemma_inserted_ordered(sorted_by_id(tasks.drop_last()), tasks.last());
        lemma_inserted_holds(sorted_by_id(tasks.drop_last()), tasks.last());
        assert(tasks.drop_last().push(tasks.last()) =~= tasks);
    }
}

} // verus!
