//! Settings of a benchmark run, and the filter that selects its tasks.

use crate::diff::list_contains;
use vstd::prelude::*;
use vstd::string::StringExecFns;

verus! {

/// How a benchmark run proceeds.
#[derive(Debug, Clone)]
pub struct RunConfig {
    pub repetitions: u32,
    pub dry_run: bool,
    pub filter: FilterConfig,
}

/// Where a benchmark run finds its input and puts its output.
#[derive(Debug, Clone)]
pub struct PathConfig {
    pub corpus_dir: String,
    pub prompts_dir: String,
    pub results_dir: String,
    pub skill_file: String,
    pub comparison_prompt_file: String,
}

/// Which tasks a run takes. A criterion that is not set admits every task.
#[derive(Debug, Clone)]
pub struct FilterConfig {
    pub categories: Option<Vec<String>>,
    pub languages: Option<Vec<String>>,
    pub difficulties: Option<Vec<String>>,
    pub task_ids: Option<Vec<String>>,
}

/// Whether a criterion admits a value: it is not set, or lists the value.
pub open spec fn admits(criterion: Option<Seq<Seq<char>>>, value: Seq<char>) -> bool {
    match criterion {
        Some(listed) => listed.contains(value),
        None => true,
    }
}

/// Whether a criterion admits a value.
fn criterion_admits(criterion: &Option<Vec<String>>, value: &str) -> (b: bool)
    ensures
        b == admits(criterion.deep_view(), value@),
{
    match criterion {
        Some(listed) => list_contains(listed, value),
        None => true,
    }
}

impl FilterConfig {
    /// The filter that admits every task.
    pub fn new() -> (filter: FilterConfig)
        ensures
            filter.categories.is_none(),
            filter.languages.is_none(),
            filter.difficulties.is_none(),
            filter.task_ids.is_none(),
    {
        FilterConfig { categories: None, languages: None, difficulties: None, task_ids: None }
    }

    /// Whether a task passes the filter: each criterion that is set lists
    /// the task's value.
    pub fn matches(&self, category: &str, language: &str, difficulty: &str, id: &str) -> (b: bool)
        ensures
            b == (admits(self.categories.deep_view(), category@) && admits(
                self.languages.deep_view(),
                language@,
            ) && admits(self.difficulties.deep_view(), difficulty@) && admits(
                self.task_ids.deep_view(),
                id@,
            )),
    {
        let category_match = criterion_admits(&self.categories, category);
        let language_match = criterion_admits(&self.languages, language);
        let difficulty_match = criterion_admits(&self.difficulties, difficulty);
        let id_match = criterion_admits(&self.task_ids, id);
        category_match && language_match && difficulty_match && id_match
    }
}

impl Default for FilterConfig {
    fn default() -> (filter: FilterConfig)
        ensures
            filter.categories.is_none(),
            filter.languages.is_none(),
            filter.difficulties.is_none(),
            filter.task_ids.is_none(),
    {
        FilterConfig::new()
    }
}

/// The file that holds the comparison prompt unless another is named.
pub fn default_comparison_prompt() -> (path: String)
    ensures
        path@ == "prompts/comparison.md"@,
{
    String::from_str("prompts/comparison.md")
}

/// The largest answer that is asked for unless another size is named.
pub fn default_max_tokens() -> (n: u32)
    ensures
        n == 4096,
{
    4096
}

/// The number of requests per minute unless another is named.
pub fn default_rate_limit() -> (n: u32)
    ensures
        n == 60,
{
    60
}

/// The number of repetitions unless another is named.
pub fn default_repetitions() -> (n: u32)
    ensures
        n == 1,
{
    1
}

impl Default for RunConfig {
    fn default() -> (config: RunConfig)
        ensures
            config.repetitions == 1,
            !config.dry_run,
            config.filter.categories.is_none(),
            config.filter.languages.is_none(),
            config.filter.difficulties.is_none(),
            config.filter.task_ids.is_none(),
    {
        RunConfig { repetitions: default_repetitions(), dry_run: false, filter: FilterConfig::new() }
    }
}

impl Default for PathConfig {
    fn default() -> (config: PathConfig)
        ensures
            config.corpus_dir@ == "corpus"@,
            config.prompts_dir@ == "prompts"@,
            config.results_dir@ == "results"@,
            config.skill_file@ == "../skills/aicms/SKILL.md"@,
            config.comparison_prompt_file@ == "prompts/comparison.md"@,
    {
        PathConfig {
            corpus_dir: String::from_str("corpus"),
            prompts_dir: String::from_str("prompts"),
            results_dir: String::from_str("results"),
            skill_file: String::from_str("../skills/aicms/SKILL.md"),
            comparison_prompt_file: default_comparison_prompt(),
        }
    }
}

} // verus!
