//! Rules of the harness around a run: how a task is put to the scorer, how
//! a filter is read from the command line, and what is reported when an
//! answer held no code.

use crate::bench::config::FilterConfig;
use crate::bench::scorer::ComparisonScore;
use crate::bench::task::{language_name, Language, Task, TaskModel};
use crate::diff::list_contains;
use crate::extractor::{split_list, trimmed_parts};
use crate::text::equals;
use vstd::prelude::*;
use vstd::string::StringExecFns;

verus! {

/// The comparison of the two implementations of one task.
#[derive(Debug, Clone)]
pub struct TaskComparison {
    pub task_id: String,
    pub comparison: ComparisonScore,
}

/// How often each side won.
#[derive(Debug, Clone, Copy, PartialEq, Eq, Structural)]
pub struct WinCounts {
    pub aicms_wins: u32,
    pub baseline_wins: u32,
    pub ties: u32,
}

/// The counts after one more comparison whose winner is `winner`. Any
/// winner but `aicms` and `baseline` counts as a tie. A count stays at its
/// largest value once it is reached.
pub open spec fn counted_win(counts: WinCounts, winner: Seq<char>) -> WinCounts {
    if winner == "aicms"@ {
        WinCounts { aicms_wins: next(counts.aicms_wins), ..counts }
    } else if winner == "baseline"@ {
        WinCounts { baseline_wins: next(counts.baseline_wins), ..counts }
    } else {
        WinCounts { ties: next(counts.ties), ..counts }
    }
}

/// A count raised by one, unless it is at its largest value.
pub open spec fn next(n: u32) -> u32 {
    if n < u32::MAX {
        (n + 1) as u32
    } else {
        n
    }
}

/// The counts after the first `upto` comparisons.
pub open spec fn wins_upto(winners: Seq<Seq<char>>, upto: int) -> WinCounts
    decreases upto,
{
    if upto <= 0 {
        WinCounts { aicms_wins: 0, baseline_wins: 0, ties: 0 }
    } else {
        counted_win(wins_upto(winners, upto - 1), winners[upto - 1])
    }
}

/// The winners of the comparisons, in order.
pub open spec fn winners_of(comparisons: Seq<TaskComparison>) -> Seq<Seq<char>> {
    Seq::new(comparisons.len(), |i: int| comparisons[i].comparison.winner@)
}

/// A count raised by one, unless it is at its largest value.
fn raise(n: u32) -> (m: u32)
    ensures
        m == next(n),
{
    if n < u32::MAX {
        n + 1
    } else {
        n
    }
}

/// How often each side won in the comparisons.
pub fn count_wins(comparisons: &Vec<TaskComparison>) -> (counts: WinCounts)
    ensures
        counts == wins_upto(winners_of(comparisons@), comparisons@.len() as int),
{
    let mut counts = WinCounts { aicms_wins: 0, baseline_wins: 0, ties: 0 };
    let mut i: usize = 0;
    while i < comparisons.len()
        invariant
            i <= comparisons@.len(),
            counts == wins_upto(winners_of(comparisons@), i as int),
        decreases comparisons@.len() - i,
    {
        let winner = comparisons[i].comparison.winner.as_str();
        if equals(winner, "aicms") {
            counts.aicms_wins = raise(counts.aicms_wins);
        } else if equals(winner, "baseline") {
            counts.baseline_wins = raise(counts.baseline_wins);
        } else {
            counts.ties = raise(counts.ties);
        }
        i += 1;
    }
    counts
}

/// How a task is put to the scorer: its name, its language and its
/// description.
pub open spec fn task_spec_of(task: TaskModel) -> Seq<char> {
    "Task: "@ + task.name + "\n\nLanguage: "@ + language_name(task.language) + "\n\nDescription:\n"@
        + task.description
}

/// How a task is put to the scorer.
pub fn build_task_spec(task: &Task) -> (spec: String)
    ensures
        spec@ == task_spec_of(task@),
{
    let mut spec = String::from_str("Task: ");
    spec.append(task.name.as_str());
    spec.append("\n\nLanguage: ");
    spec.append(task.language.as_str());
    spec.append("\n\nDescription:\n");
    spec.append(task.description.as_str());
    spec
}

/// The list that a comma-separated option names, if the option is given.
pub open spec fn listed(option: Option<Seq<char>>) -> Option<Seq<Seq<char>>> {
    match option {
        Some(text) => Some(trimmed_parts(text)),
        None => None,
    }
}

/// The list that a comma-separated option names.
fn read_list(option: &Option<String>) -> (list: Option<Vec<String>>)
    ensures
        list.deep_view() == listed(option.deep_view()),
{
    match option {
        Some(text) => Some(split_list(text.as_str())),
        None => None,
    }
}

/// The filter that the options of the command line ask for. Each option
/// is a comma-separated list; difficulties are never filtered.
pub fn build_filter(categories: Option<String>, languages: Option<String>, tasks: Option<String>) -> (filter:
    FilterConfig)
    ensures
        filter.categories.deep_view() == listed(categories.deep_view()),
        filter.languages.deep_view() == listed(languages.deep_view()),
        filter.task_ids.deep_view() == listed(tasks.deep_view()),
        filter.difficulties.is_none(),
{
    FilterConfig {
        categories: read_list(&categories),
        languages: read_list(&languages),
        task_ids: read_list(&tasks),
        difficulties: None,
    }
}

/// What is known of one execution when its answer is checked for code.
#[derive(Debug, Clone)]
pub struct ExtractionRecord {
    pub task_id: String,
    pub mode: String,
    pub code_extracted: bool,
}

/// An extraction record as plain values.
pub struct RecordModel {
    pub task_id: Seq<char>,
    pub mode: Seq<char>,
    pub code_extracted: bool,
}

impl View for ExtractionRecord {
    type V = RecordModel;

    open spec fn view(&self) -> RecordModel {
        RecordModel { task_id: self.task_id@, mode: self.mode@, code_extracted: self.code_extracted }
    }
}

impl DeepView for ExtractionRecord {
    type V = RecordModel;

    open spec fn deep_view(&self) -> RecordModel {
        self@
    }
}

/// The tasks among the first `upto` records whose answer in `mode` held no
/// code, each once, in the order in which they first occur.
pub open spec fn missing_upto(records: Seq<RecordModel>, mode: Seq<char>, upto: int) -> Seq<Seq<char>>
    decreases upto,
{
    if upto <= 0 {
        seq![]
    } else {
        let before = missing_upto(records, mode, upto - 1);
        let record = records[upto - 1];
        if !record.code_extracted && record.mode == mode && !before.contains(record.task_id) {
            before.push(record.task_id)
        } else {
            before
        }
    }
}

/// The warning about a task whose answer in `mode` held no code.
pub open spec fn extraction_warning(task_id: Seq<char>, mode: Seq<char>) -> Seq<char> {
    "Code extraction failed for "@ + task_id + " ("@ + mode + ") - metrics show 0%"@
}

/// The warnings about the given tasks.
pub open spec fn warnings_for(tasks: Seq<Seq<char>>, mode: Seq<char>) -> Seq<Seq<char>> {
    Seq::new(tasks.len(), |i: int| extraction_warning(tasks[i], mode))
}

/// The warnings about answers that held no code: first those of the
/// baseline mode, then those of the annotation mode, one for each task.
pub open spec fn extraction_warnings(records: Seq<RecordModel>) -> Seq<Seq<char>> {
    warnings_for(missing_upto(records, "baseline"@, records.len() as int), "baseline"@)
        + warnings_for(missing_upto(records, "aicms"@, records.len() as int), "aicms"@)
}

/// The tasks whose answer in `mode` held no code.
fn missing_in_mode(records: &Vec<ExtractionRecord>, mode: &str) -> (tasks: Vec<String>)
    ensures
        tasks.deep_view() == missing_upto(records.deep_view(), mode@, records@.len() as int),
{
    let mut tasks: Vec<String> = Vec::new();
    assert(tasks.deep_view() =~= Seq::<Seq<char>>::empty());
    let mut i: usize = 0;
    while i < records.len()
        invariant
            i <= records@.len(),
            tasks.deep_view() == missing_upto(records.deep_view(), mode@, i as int),
        decreases records@.len() - i,
    {
        let record = &records[i];
        assert(records.deep_view()[i as int] == record@);
        if !record.code_extracted && equals(record.mode.as_str(), mode) && !list_contains(
            &tasks,
            record.task_id.as_str(),
        ) {
            let ghost before = tasks.deep_view();
            tasks.push(record.task_id.clone());
            assert(tasks.deep_view() =~= before.push(record.task_id@));
        }
        i += 1;
    }
    tasks
}

/// Appends the warnings about the given tasks.
fn push_warnings(warnings: &mut Vec<String>, tasks: &Vec<String>, mode: &str)
    ensures
        final(warnings).deep_view() == old(warnings).deep_view() + warnings_for(
            tasks.deep_view(),
            mode@,
        ),
{
    let mut i: usize = 0;
    let ghost start = warnings.deep_view();
    assert(start + warnings_for(tasks.deep_view(), mode@).take(0) =~= start);
    while i < tasks.len()
        invariant
            i <= tasks@.len(),
            warnings.deep_view() == start + warnings_for(tasks.deep_view(), mode@).take(i as int),
        decreases tasks@.len() - i,
    {
        let mut warning = String::from_str("Code extraction failed for ");
        warning.append(tasks[i].as_str());
        warning.append(" (");
        warning.append(mode);
        warning.append(") - metrics show 0%");
        let ghost before = warnings.deep_view();
        warnings.push(warning);
        proof {
            let all = warnings_for(tasks.deep_view(), mode@);
            assert(warnings.deep_view() =~= before.push(warning@));
            assert(all.take(i as int + 1) =~= all.take(i as int).push(all[i as int]));
            assert(start + all.take(i as int + 1) =~= (start + all.take(i as int)).push(all[i as int]));
        }
        i += 1;
    }
    assert(warnings_for(tasks.deep_view(), mode@).take(i as int) =~= warnings_for(
        tasks.deep_view(),
        mode@,
    ));
}

/// The warnings about answers that held no code.
pub fn check_extraction_failures(records: &Vec<ExtractionRecord>) -> (warnings: Vec<String>)
    ensures
        warnings.deep_view() == extraction_warnings(records.deep_view()),
{
    let mut warnings: Vec<String> = Vec::new();
    assert(warnings.deep_view() =~= Seq::<Seq<char>>::empty());
    let baseline = missing_in_mode(records, "baseline");
    let aicms = missing_in_mode(records, "aicms");
    push_warnings(&mut warnings, &baseline, "baseline");
    push_warnings(&mut warnings, &aicms, "aicms");
    assert(warnings.deep_view() =~= extraction_warnings(records.deep_view()));
    warnings
}

/// Which of the two sides of a task is missing, in words; `None` where
/// both are there.
pub fn missing_sides(has_baseline: bool, has_aicms: bool) -> (missing: Option<&'static str>)
    ensures
        match missing {
            Some(words) => words@ == if !has_baseline && !has_aicms {
                "baseline and aicms"@
            } else if !has_baseline {
                "baseline"@
            } else {
                "aicms"@
            } && !(has_baseline && has_aicms),
            None => has_baseline && has_aicms,
        },
{
    if !has_baseline && !has_aicms {
        Some("baseline and aicms")
    } else if !has_baseline {
        Some("baseline")
    } else if !has_aicms {
        Some("aicms")
    } else {
        None
    }
}

/// How a task that is known by its identifier only is put to the scorer.
pub fn discovered_task_spec(task_id: &str) -> (spec: String)
    ensures
        spec@ == "Task: "@ + task_id@ + "\n\n(Task details from original corpus)"@,
{
    let mut spec = String::from_str("Task: ");
    spec.append(task_id);
    spec.append("\n\n(Task details from original corpus)");
    spec
}

/// The tasks among the first `upto` of `baseline` that `aicms` holds too,
/// each once, in their order.
pub open spec fn common_upto(baseline: Seq<Seq<char>>, aicms: Seq<Seq<char>>, upto: int) -> Seq<
    Seq<char>,
>
    decreases upto,
{
    if upto <= 0 {
        seq![]
    } else {
        let before = common_upto(baseline, aicms, upto - 1);
        if aicms.contains(baseline[upto - 1]) && !before.contains(baseline[upto - 1]) {
            before.push(baseline[upto - 1])
        } else {
            before
        }
    }
}

/// The tasks for which both sides have code.
pub fn common_tasks(baseline: &Vec<String>, aicms: &Vec<String>) -> (common: Vec<String>)
    ensures
        common.deep_view() == common_upto(
            baseline.deep_view(),
            aicms.deep_view(),
            baseline@.len() as int,
        ),
{
    let mut common: Vec<String> = Vec::new();
    assert(common.deep_view() =~= Seq::<Seq<char>>::empty());
    let mut i: usize = 0;
    while i < baseline.len()
        invariant
            i <= baseline@.len(),
            common.deep_view() == common_upto(baseline.deep_view(), aicms.deep_view(), i as int),
        decreases baseline@.len() - i,
    {
        let id = baseline[i].as_str();
        assert(baseline.deep_view()[i as int] == id@);
        if list_contains(aicms, id) && !list_contains(&common, id) {
            let ghost before = common.deep_view();
            common.push(baseline[i].clone());
            assert(common.deep_view() =~= before.push(id@));
        }
        i += 1;
    }
    common
}

/// The filter that lists the tasks of one category, of one language, or of
/// both.
pub fn list_filter(category: Option<String>, language: Option<String>) -> (filter: FilterConfig)
    ensures
        filter.categories.deep_view() == match category {
            Some(c) => Some(seq![c@]),
            None => None,
        },
        filter.languages.deep_view() == match language {
            Some(l) => Some(seq![l@]),
            None => None,
        },
        filter.difficulties.is_none(),
        filter.task_ids.is_none(),
{
    let categories = match category {
        Some(c) => {
            let mut list: Vec<String> = Vec::new();
            list.push(c);
            assert(list.deep_view() =~= seq![c@]);
            Some(list)
        },
        None => None,
    };
    let languages = match language {
        Some(l) => {
            let mut list: Vec<String> = Vec::new();
            list.push(l);
            assert(list.deep_view() =~= seq![l@]);
            Some(list)
        },
        None => None,
    };
    FilterConfig { categories, languages, difficulties: None, task_ids: None }
}

/// Whether `languages` holds `language`.
fn is_available(languages: &Vec<Language>, language: Language) -> (b: bool)
    ensures
        b == languages@.contains(language),
{
    let mut i: usize = 0;
    while i < languages.len()
        invariant
            i <= languages@.len(),
            forall|k: int| 0 <= k < i ==> languages@[k] != language,
        decreases languages@.len() - i,
    {
        if languages[i] == language {
            return true;
        }
        i += 1;
    }
    false
}

/// The tasks that can be run: those whose language is available.
pub fn runnable_tasks(tasks: &Vec<Task>, available: &Vec<Language>) -> (kept: Vec<Task>)
    ensures
        kept.deep_view() == tasks.deep_view().filter(
            |task: TaskModel| available@.contains(task.language),
        ),
{
    let ghost keep = |task: TaskModel| available@.contains(task.language);
    let ghost all = tasks.deep_view();
    let mut kept: Vec<Task> = Vec::new();
    let mut i: usize = 0;
    proof {
        reveal(Seq::filter);
        assert(all.take(0) =~= Seq::<TaskModel>::empty());
        assert(kept.deep_view() =~= Seq::<TaskModel>::empty());
    }
    while i < tasks.len()
        invariant
            i <= tasks@.len(),
            all == tasks.deep_view(),
            keep == |task: TaskModel| available@.contains(task.language),
            kept.deep_view() == all.take(i as int).filter(keep),
        decreases tasks@.len() - i,
    {
        let task = &tasks[i];
        proof {
            reveal(Seq::filter);
            assert(task@ == all[i as int]);
            assert(all.take(i as int + 1).drop_last() =~= all.take(i as int));
            assert(all.take(i as int + 1).last() == task@);
        }
        if is_available(available, task.language) {
            let ghost before = kept.deep_view();
            let copy = task.clone();
            kept.push(copy);
            assert(kept.deep_view() =~= before.push(task@));
        }
        i += 1;
    }
    assert(all.take(i as int) =~= all);
    kept
}

} // verus!
