use aicms::bench::config::{
    default_comparison_prompt, default_max_tokens, default_rate_limit, default_repetitions,
    FilterConfig, PathConfig, RunConfig,
};

#[test]
fn test_filter_matches_all_when_empty() {
    let filter = FilterConfig::default();
    assert!(filter.matches("implement", "rust", "easy", "test-task"));
}

#[test]
fn test_filter_matches_specific_category() {
    let filter = FilterConfig {
        categories: Some(vec!["implement".to_string()]),
        ..Default::default()
    };
    assert!(filter.matches("implement", "rust", "easy", "test-task"));
    assert!(!filter.matches("bugfix", "rust", "easy", "test-task"));
}

#[test]
fn test_filter_matches_multiple_criteria() {
    let filter = FilterConfig {
        categories: Some(vec!["implement".to_string()]),
        languages: Some(vec!["rust".to_string(), "python".to_string()]),
        ..Default::default()
    };
    assert!(filter.matches("implement", "rust", "easy", "test-task"));
    assert!(filter.matches("implement", "python", "medium", "other-task"));
    assert!(!filter.matches("implement", "typescript", "easy", "test-task"));
}

#[test]
fn filter_checks_every_criterion() {
    let filter = FilterConfig {
        categories: None,
        languages: None,
        difficulties: Some(vec!["hard".to_string()]),
        task_ids: Some(vec!["t1".to_string(), "t2".to_string()]),
    };
    assert!(filter.matches("any", "any", "hard", "t2"));
    assert!(!filter.matches("any", "any", "easy", "t2"));
    assert!(!filter.matches("any", "any", "hard", "t3"));
    let nothing = FilterConfig { task_ids: Some(vec![]), ..Default::default() };
    assert!(!nothing.matches("a", "b", "c", "d"));
}

#[test]
fn default_settings() {
    let run = RunConfig::default();
    assert_eq!(run.repetitions, 1);
    assert!(!run.dry_run);
    assert!(run.filter.categories.is_none());
    let paths = PathConfig::default();
    assert_eq!(paths.corpus_dir, "corpus");
    assert_eq!(paths.prompts_dir, "prompts");
    assert_eq!(paths.results_dir, "results");
    assert_eq!(paths.skill_file, "../skills/aicms/SKILL.md");
    assert_eq!(paths.comparison_prompt_file, "prompts/comparison.md");
    assert_eq!(default_comparison_prompt(), "prompts/comparison.md");
    assert_eq!(default_max_tokens(), 4096);
    assert_eq!(default_rate_limit(), 60);
    assert_eq!(default_repetitions(), 1);
}
