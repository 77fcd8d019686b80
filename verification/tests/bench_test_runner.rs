use aicms::bench::test_runner::{
    normalize_rust_path, parse_pytest_output, parse_python_test_output, parse_rust_test_output,
    tallied, TestOutputError,
};

#[test]
fn test_parse_rust_output() {
    let output = "test result: ok. 3 passed; 1 failed; 0 ignored";
    let result = parse_rust_test_output(output).unwrap();
    assert_eq!(result.passed, 3);
    assert_eq!(result.failed, 1);
    assert_eq!(result.total, 4);
    assert_eq!(result.output, output);
}

#[test]
fn rust_output_last_summary_wins() {
    let output = "running 2 tests\ntest result: ok. 2 passed; 0 failed;\n\ntest result: FAILED. 5 passed; 7 failed; 1 ignored\npassed; 9\n";
    let result = parse_rust_test_output(output).unwrap();
    assert_eq!((result.passed, result.failed, result.total), (5, 7, 12));
    let none = parse_rust_test_output("no summary here\n3 passed; 1 failed;").unwrap();
    assert_eq!((none.passed, none.failed, none.total), (0, 0, 0));
    let odd = parse_rust_test_output("test result: many passed; passed; x failed;").unwrap();
    assert_eq!((odd.passed, odd.failed), (0, 0));
}

#[test]
fn rust_output_total_must_fit() {
    let output = "test result: 4294967295 passed; 1 failed;";
    assert_eq!(parse_rust_test_output(output).unwrap_err(), TestOutputError::TooManyTests);
    assert!(tallied(u32::MAX, 0, String::new()).is_ok());
    assert!(tallied(2, u32::MAX - 1, String::new()).is_err());
}

#[test]
fn python_output() {
    let ok = "....\n----\nRan 4 tests in 0.001s\n\nOK\n";
    let result = parse_python_test_output(ok).unwrap();
    assert_eq!((result.passed, result.failed, result.total), (4, 0, 4));
    let failed = "F..\n----\nRan 3 tests in 0.002s\n\nFAILED (failures=1)\n";
    let result = parse_python_test_output(failed).unwrap();
    assert_eq!((result.passed, result.failed, result.total), (2, 1, 3));
    let more = "Ran 2 tests in 0.1s\n\nFAILED (failures=5, errors=1)\n";
    let result = parse_python_test_output(more).unwrap();
    assert_eq!((result.passed, result.failed, result.total), (2, 0, 2));
    let two = "Ran 9 tests\nFAILED (failures=4)\nFAILED (failures=6) failures=1)\n";
    let result = parse_python_test_output(two).unwrap();
    assert_eq!((result.passed, result.failed, result.total), (3, 6, 9));
    let neither = "Ran 2 tests in 0.1s\n";
    let result = parse_python_test_output(neither).unwrap();
    assert_eq!((result.passed, result.failed, result.total), (0, 0, 0));
    let not_a_run = "Ran\nRanx 3 tests\nran 3 tests\nOK\n";
    let result = parse_python_test_output(not_a_run).unwrap();
    assert_eq!((result.passed, result.failed), (0, 0));
}

#[test]
fn pytest_output() {
    let result = parse_pytest_output("===== 5 passed, 2 failed in 0.3s =====", "").unwrap();
    assert_eq!((result.passed, result.failed, result.total), (5, 2, 7));
    assert_eq!(result.output, "===== 5 passed, 2 failed in 0.3s =====\n");
    let result = parse_pytest_output("collected 3 items\n", "3 passed in 0.01s\n").unwrap();
    assert_eq!((result.passed, result.failed), (3, 0));
    assert_eq!(result.output, "collected 3 items\n\n3 passed in 0.01s\n");
    let result = parse_pytest_output("1 failed, 4 passed", "").unwrap();
    assert_eq!((result.passed, result.failed), (4, 1));
    let result = parse_pytest_output("passed", "failed").unwrap();
    assert_eq!((result.passed, result.failed), (0, 0));
    let result = parse_pytest_output("2 passed\nall passed", "").unwrap();
    assert_eq!(result.passed, 0);
}

#[test]
fn rust_paths_go_under_src() {
    assert_eq!(normalize_rust_path("main.rs"), "src/main.rs");
    assert_eq!(normalize_rust_path("src/lib.rs"), "src/lib.rs");
    assert_eq!(normalize_rust_path("src\\lib.rs"), "src\\lib.rs");
    assert_eq!(normalize_rust_path("srcs/lib.rs"), "src/srcs/lib.rs");
    assert_eq!(normalize_rust_path(""), "src/");
}
