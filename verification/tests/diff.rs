use aicms::annotation::{FunctionAnnotations, Location, ModuleAnnotations, ParsedFile};
use aicms::confidence::Confidence;
use aicms::diff::{
    compare_effects, compare_functions, compare_postconditions, compare_preconditions, diff_files,
    diff_parsed, list_contains, ChangeType, ContractChange, DiffResult,
};

fn create_test_file(functions: Vec<FunctionAnnotations>) -> ParsedFile {
    let mut module = ModuleAnnotations::default();
    module.functions = functions;
    ParsedFile {
        path: "test.rs".to_string(),
        language: "rust".to_string(),
        module,
        raw_annotations: vec![],
    }
}

fn create_func(name: &str) -> FunctionAnnotations {
    FunctionAnnotations::new(name.to_string(), Location::default())
}

fn strings(items: &[&str]) -> Vec<String> {
    items.iter().map(|s| s.to_string()).collect()
}

#[test]
fn test_precondition_strengthened_is_breaking() {
    let mut old_func = create_func("test_fn");
    old_func.pre = vec!["x > 0".to_string()];

    let mut new_func = create_func("test_fn");
    new_func.pre = vec!["x > 0".to_string(), "x < 100".to_string()];

    let old_file = create_test_file(vec![old_func]);
    let new_file = create_test_file(vec![new_func]);

    let result = diff_parsed(&old_file, &new_file);

    assert_eq!(result.breaking_count, 1);
    assert!(result
        .changes
        .iter()
        .any(|c| c.tag == "@ai:pre" && c.change_type == ChangeType::Breaking));

    assert_eq!(result.changes.len(), 1);
    assert_eq!(result.non_breaking_count, 0);
    assert_eq!(result.notable_count, 0);
    assert_eq!(result.changes[0].new_value, Some("x < 100".to_string()));
    assert_eq!(result.changes[0].old_value, None);
    assert_eq!(result.changes[0].function_name, "test_fn");
    assert_eq!(
        result.changes[0].description,
        "Precondition strengthened (new requirement added)"
    );
    assert_eq!(result.file_path, "test.rs");
    assert!(result.has_breaking_changes());
}

#[test]
fn test_postcondition_weakened_is_breaking() {
    let mut old_func = create_func("test_fn");
    old_func.post = vec!["result >= 0".to_string()];

    let mut new_func = create_func("test_fn");
    new_func.post = vec![];

    let old_file = create_test_file(vec![old_func]);
    let new_file = create_test_file(vec![new_func]);

    let result = diff_parsed(&old_file, &new_file);

    assert_eq!(result.breaking_count, 1);
    assert!(result
        .changes
        .iter()
        .any(|c| c.tag == "@ai:post" && c.change_type == ChangeType::Breaking));
    assert_eq!(result.changes.len(), 1);
    assert_eq!(result.changes[0].old_value, Some("result >= 0".to_string()));
}

#[test]
fn test_effects_expanded_is_breaking() {
    let mut old_func = create_func("test_fn");
    old_func.effects = vec!["pure".to_string()];

    let mut new_func = create_func("test_fn");
    new_func.effects = vec!["db:write".to_string()];

    let old_file = create_test_file(vec![old_func]);
    let new_file = create_test_file(vec![new_func]);

    let result = diff_parsed(&old_file, &new_file);

    assert_eq!(result.breaking_count, 1);
    assert_eq!(result.changes.len(), 1);
    assert_eq!(result.changes[0].tag, "@ai:effects");
    assert_eq!(result.changes[0].change_type, ChangeType::Breaking);
    assert_eq!(result.changes[0].old_value, Some("pure".to_string()));
    assert_eq!(result.changes[0].new_value, Some("db:write".to_string()));
}

#[test]
fn unchanged_functions_give_empty_diff() {
    let mut f = create_func("same");
    f.pre = strings(&["a", "b"]);
    f.post = strings(&["c"]);
    f.effects = strings(&["db:read"]);
    f.idempotent = Some(true);
    f.intent = Some("Do".to_string());
    f.confidence = Some(Confidence { micros: 900_000 });
    f.needs_review = Some("later".to_string());
    f.deprecated = Some("soon".to_string());
    let g = create_func("other");
    let old_file = create_test_file(vec![f.clone(), g.clone()]);
    let new_file = create_test_file(vec![f, g]);
    let result = diff_parsed(&old_file, &new_file);
    assert!(result.changes.is_empty());
    assert_eq!(result.breaking_count, 0);
    assert_eq!(result.notable_count, 0);
    assert_eq!(result.non_breaking_count, 0);
    assert!(!result.has_breaking_changes());
}

#[test]
fn functions_in_one_version_only_are_passed_over() {
    let mut added = create_func("added");
    added.pre = strings(&["x"]);
    let mut removed = create_func("removed");
    removed.post = strings(&["y"]);
    let result = diff_parsed(&create_test_file(vec![removed]), &create_test_file(vec![added]));
    assert!(result.changes.is_empty());
}

#[test]
fn last_function_of_a_name_counts() {
    let mut old_first = create_func("f");
    old_first.pre = strings(&["ignored"]);
    let mut old_last = create_func("f");
    old_last.pre = strings(&["kept"]);
    let mut new_first = create_func("f");
    new_first.pre = strings(&["also ignored"]);
    let mut new_last = create_func("f");
    new_last.pre = strings(&["kept", "more"]);
    let result = diff_parsed(
        &create_test_file(vec![old_first, old_last]),
        &create_test_file(vec![new_first, new_last]),
    );
    assert_eq!(result.changes.len(), 1);
    assert_eq!(result.changes[0].new_value, Some("more".to_string()));
}

#[test]
fn preconditions_both_ways() {
    let mut result = DiffResult::default();
    compare_preconditions(&mut result, "f", &strings(&["a", "b"]), &strings(&["b", "c"]));
    assert_eq!(result.changes.len(), 2);
    assert_eq!(result.changes[0].change_type, ChangeType::Breaking);
    assert_eq!(result.changes[0].new_value, Some("c".to_string()));
    assert_eq!(result.changes[1].change_type, ChangeType::NonBreaking);
    assert_eq!(result.changes[1].old_value, Some("a".to_string()));
    assert_eq!(result.changes[1].description, "Precondition weakened (requirement removed)");
    assert_eq!(result.breaking_count, 1);
    assert_eq!(result.non_breaking_count, 1);
}

#[test]
fn postconditions_both_ways() {
    let mut result = DiffResult::default();
    compare_postconditions(&mut result, "f", &strings(&["a", "b"]), &strings(&["b", "c"]));
    assert_eq!(result.changes.len(), 2);
    assert_eq!(result.changes[0].change_type, ChangeType::Breaking);
    assert_eq!(result.changes[0].old_value, Some("a".to_string()));
    assert_eq!(result.changes[0].description, "Postcondition weakened (guarantee removed)");
    assert_eq!(result.changes[1].change_type, ChangeType::NonBreaking);
    assert_eq!(result.changes[1].new_value, Some("c".to_string()));
    assert_eq!(
        result.changes[1].description,
        "Postcondition strengthened (new guarantee added)"
    );
}

#[test]
fn effects_rules() {
    let mut result = DiffResult::default();
    compare_effects(&mut result, "f", &strings(&["db:read", "net"]), &strings(&[]));
    assert_eq!(result.changes.len(), 1);
    assert_eq!(result.changes[0].change_type, ChangeType::NonBreaking);
    assert_eq!(result.changes[0].old_value, Some("db:read, net".to_string()));
    assert_eq!(result.changes[0].new_value, Some("pure".to_string()));
    assert_eq!(result.changes[0].description, "Function is now pure (side effects removed)");

    let mut result = DiffResult::default();
    compare_effects(&mut result, "f", &strings(&[]), &strings(&["a", "b"]));
    assert_eq!(result.changes.len(), 1);
    assert_eq!(result.changes[0].change_type, ChangeType::Breaking);
    assert_eq!(result.changes[0].new_value, Some("a, b".to_string()));
    assert_eq!(
        result.changes[0].description,
        "Function is no longer pure (side effects added)"
    );

    let mut result = DiffResult::default();
    compare_effects(&mut result, "f", &strings(&["a", "b"]), &strings(&["b", "c", "d"]));
    assert_eq!(result.changes.len(), 3);
    assert_eq!(result.changes[0].description, "New side effect added: c");
    assert_eq!(result.changes[1].description, "New side effect added: d");
    assert_eq!(result.changes[2].description, "Side effect removed: a");
    assert_eq!(result.breaking_count, 2);
    assert_eq!(result.non_breaking_count, 1);

    let mut result = DiffResult::default();
    compare_effects(&mut result, "f", &strings(&["pure", "x"]), &strings(&["pure"]));
    assert_eq!(result.changes.len(), 1);
    assert_eq!(result.changes[0].description, "Side effect removed: x");

    let mut result = DiffResult::default();
    compare_effects(&mut result, "f", &strings(&[]), &strings(&["pure"]));
    assert!(result.changes.is_empty());
}

#[test]
fn idempotence_rules() {
    let cases = [
        (Some(true), Some(false), Some((ChangeType::Breaking, Some("true"), Some("false")))),
        (Some(true), None, Some((ChangeType::Breaking, Some("true"), None))),
        (Some(false), Some(true), Some((ChangeType::NonBreaking, Some("false"), Some("true")))),
        (None, Some(true), Some((ChangeType::NonBreaking, None, Some("true")))),
        (Some(true), Some(true), None),
        (None, Some(false), None),
        (Some(false), None, None),
        (None, None, None),
    ];
    for (old, new, expected) in cases {
        let mut f = create_func("f");
        f.idempotent = old;
        let mut g = create_func("f");
        g.idempotent = new;
        let mut result = DiffResult::default();
        compare_functions(&mut result, &f, &g);
        match expected {
            Some((kind, was, now)) => {
                assert_eq!(result.changes.len(), 1);
                assert_eq!(result.changes[0].change_type, kind);
                assert_eq!(result.changes[0].tag, "@ai:idempotent");
                assert_eq!(result.changes[0].old_value, was.map(|s: &str| s.to_string()));
                assert_eq!(result.changes[0].new_value, now.map(|s: &str| s.to_string()));
            }
            None => assert!(result.changes.is_empty()),
        }
    }
}

fn with_confidence(text: &str) -> FunctionAnnotations {
    let mut f = create_func("f");
    f.confidence = Confidence::parse(text);
    assert!(f.confidence.is_some());
    f
}

#[test]
fn confidence_delta_of_a_tenth_is_the_threshold() {
    let mut result = DiffResult::default();
    compare_functions(&mut result, &with_confidence("0.9"), &with_confidence("0.8"));
    assert_eq!(result.changes.len(), 1);
    assert_eq!(result.changes[0].change_type, ChangeType::Notable);
    assert_eq!(result.changes[0].tag, "@ai:confidence");
    assert_eq!(result.changes[0].description, "Confidence decreased from 0.90 to 0.80");
    assert_eq!(result.changes[0].old_value, Some("0.90".to_string()));
    assert_eq!(result.changes[0].new_value, Some("0.80".to_string()));
    assert_eq!(result.notable_count, 1);

    let mut result = DiffResult::default();
    compare_functions(&mut result, &with_confidence("0.5"), &with_confidence("0.6"));
    assert_eq!(result.changes.len(), 1);
    assert_eq!(result.changes[0].change_type, ChangeType::NonBreaking);
    assert_eq!(result.changes[0].description, "Confidence increased from 0.50 to 0.60");

    let mut result = DiffResult::default();
    compare_functions(&mut result, &with_confidence("0.9"), &with_confidence("0.801"));
    assert!(result.changes.is_empty());
    let mut result = DiffResult::default();
    compare_functions(&mut result, &with_confidence("0.5"), &with_confidence("0.599"));
    assert!(result.changes.is_empty());

    let mut result = DiffResult::default();
    compare_functions(&mut result, &with_confidence("0.5"), &create_func("f"));
    assert!(result.changes.is_empty());
}

#[test]
fn notable_rules() {
    let mut f = create_func("old_name");
    f.intent = Some("Sum".to_string());
    let mut g = create_func("new_name");
    g.intent = Some("Add".to_string());
    g.needs_review = Some("math".to_string());
    g.deprecated = Some("use h".to_string());
    let mut result = DiffResult::default();
    compare_functions(&mut result, &f, &g);
    assert_eq!(result.changes.len(), 3);
    assert_eq!(result.notable_count, 3);
    assert_eq!(result.changes[0].tag, "@ai:intent");
    assert_eq!(result.changes[0].description, "Intent description changed");
    assert_eq!(result.changes[0].old_value, Some("Sum".to_string()));
    assert_eq!(result.changes[0].new_value, Some("Add".to_string()));
    assert_eq!(result.changes[0].function_name, "new_name");
    assert_eq!(result.changes[1].tag, "@ai:needs_review");
    assert_eq!(result.changes[1].description, "Review flag added: math");
    assert_eq!(result.changes[1].old_value, None);
    assert_eq!(result.changes[2].tag, "@ai:deprecated");
    assert_eq!(result.changes[2].description, "Function deprecated: use h");
    assert_eq!(result.changes[2].new_value, Some("use h".to_string()));

    let mut result = DiffResult::default();
    compare_functions(&mut result, &g, &f);
    assert_eq!(result.changes.len(), 1);
    assert_eq!(result.changes[0].tag, "@ai:intent");

    let mut only_new = create_func("f");
    only_new.intent = Some("New".to_string());
    let mut result = DiffResult::default();
    compare_functions(&mut result, &create_func("f"), &only_new);
    assert!(result.changes.is_empty());
}

#[test]
fn rules_fire_in_fixed_order() {
    let mut f = create_func("f");
    f.pre = strings(&["p"]);
    f.post = strings(&["q"]);
    f.effects = strings(&["io"]);
    f.idempotent = Some(true);
    f.intent = Some("A".to_string());
    f.confidence = Some(Confidence { micros: 900_000 });
    let mut g = create_func("f");
    g.pre = strings(&["p2"]);
    g.post = strings(&["q2"]);
    g.effects = strings(&["net"]);
    g.intent = Some("B".to_string());
    g.confidence = Some(Confidence { micros: 100_000 });
    g.needs_review = Some("r".to_string());
    g.deprecated = Some("d".to_string());
    let mut result = DiffResult::default();
    compare_functions(&mut result, &f, &g);
    let tags: Vec<&str> = result.changes.iter().map(|c| c.tag.as_str()).collect();
    assert_eq!(
        tags,
        vec![
            "@ai:pre",
            "@ai:pre",
            "@ai:post",
            "@ai:post",
            "@ai:effects",
            "@ai:effects",
            "@ai:idempotent",
            "@ai:intent",
            "@ai:confidence",
            "@ai:needs_review",
            "@ai:deprecated",
        ]
    );
    assert_eq!(result.breaking_count, 4);
    assert_eq!(result.notable_count, 4);
    assert_eq!(result.non_breaking_count, 3);
}

#[test]
fn add_change_counts_by_kind() {
    let mut result = DiffResult::new("a.rs".to_string());
    for kind in [ChangeType::Notable, ChangeType::Breaking, ChangeType::Notable, ChangeType::NonBreaking] {
        result.add_change(ContractChange {
            function_name: "f".to_string(),
            change_type: kind,
            tag: "@ai:pre".to_string(),
            description: "d".to_string(),
            old_value: None,
            new_value: None,
        });
    }
    assert_eq!(result.changes.len(), 4);
    assert_eq!(result.breaking_count, 1);
    assert_eq!(result.notable_count, 2);
    assert_eq!(result.non_breaking_count, 1);
    assert_eq!(result.file_path, "a.rs");
}

#[test]
fn list_contains_compares_whole_texts() {
    let list = strings(&["x > 0", "y"]);
    assert!(list_contains(&list, "y"));
    assert!(list_contains(&list, "x > 0"));
    assert!(!list_contains(&list, "x"));
    assert!(!list_contains(&list, "x > 0 "));
    assert!(!list_contains(&Vec::new(), ""));
}

#[test]
fn diff_files_extracts_then_compares() {
    let old = "/// @ai:intent Add\n/// @ai:pre x > 0\n/// @ai:effects pure\nfn add(x: i32) -> i32 { x }\n";
    let new = "/// @ai:intent Add\n/// @ai:pre x > 0\n/// @ai:pre x < 100\n/// @ai:effects db:write\nfn add(x: i32) -> i32 { x }\n";
    let result = diff_files("old/add.rs", old, "new/add.rs", new).unwrap();
    assert_eq!(result.file_path, "new/add.rs");
    assert_eq!(result.breaking_count, 2);
    assert_eq!(result.changes.len(), 2);
    assert_eq!(result.changes[0].tag, "@ai:pre");
    assert_eq!(result.changes[1].tag, "@ai:effects");
    assert_eq!(result.changes[1].old_value, Some("pure".to_string()));

    let same = diff_files("a.rs", old, "b.rs", old).unwrap();
    assert!(same.changes.is_empty());

    let err = diff_files("old.txt", old, "new.rs", new).unwrap_err();
    assert_eq!(err.message(), "Unsupported file type: txt");
    let err = diff_files("old.rs", old, "new.md", new).unwrap_err();
    assert_eq!(err.message(), "Unsupported file type: md");
}
