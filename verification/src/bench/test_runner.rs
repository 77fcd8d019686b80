//! Reading the output of test tools: how many tests passed and failed.
//!
//! The readers never reject an output. A line that does not have the
//! expected form is passed over, and a count that is no numeral is read as
//! zero. The one failure is a total that does not fit in 32 bits.

use crate::bench::code_extractor::SourceFile;
use crate::numeral::{parse_u32_or_zero, u32_or_zero};
use crate::text::{
    contains, find, first_occurrence, from_chars, has_infix, has_prefix, index_of, lines, lines_of,
    find_char, split, split_on, split_whitespace, starts_with, to_chars, words_of,
};
use vstd::prelude::*;
use vstd::string::StringExecFns;

verus! {

/// The outcome of a test run.
#[derive(Debug, Clone)]
pub struct TestResult {
    pub passed: u32,
    pub failed: u32,
    pub total: u32,
    pub output: String,
}

/// The counts of a test run: how many tests passed, and how many failed.
pub struct Tally {
    pub passed: u32,
    pub failed: u32,
}

/// The counts of a test result as plain values.
impl View for TestResult {
    type V = Tally;

    open spec fn view(&self) -> Tally {
        Tally { passed: self.passed, failed: self.failed }
    }
}

/// Why an output could not be turned into a test result.
#[derive(Debug, Clone, Copy, PartialEq, Eq, Structural)]
pub enum TestOutputError {
    /// The passed and the failed tests together exceed 32 bits.
    TooManyTests,
}

/// The result with the given counts, if their total fits.
pub fn tallied(passed: u32, failed: u32, output: String) -> (r: Result<TestResult, TestOutputError>)
    ensures
        match r {
            Ok(result) => passed + failed <= u32::MAX && result.passed == passed && result.failed
                == failed && result.total == passed + failed && result.output@ == output@,
            Err(e) => passed + failed > u32::MAX,
        },
{
    if passed > u32::MAX - failed {
        Err(TestOutputError::TooManyTests)
    } else {
        Ok(TestResult { passed, failed, total: passed + failed, output })
    }
}

/// The count that stands before the last `marker` among the first `upto`
/// words, or `current` if no such marker has a word before it.
pub open spec fn count_before(words: Seq<Seq<char>>, marker: Seq<char>, current: u32, upto: int) -> u32
    decreases upto,
{
    if upto <= 0 {
        current
    } else if 2 <= upto <= words.len() && words[upto - 1] == marker {
        u32_or_zero(words[upto - 2])
    } else {
        count_before(words, marker, current, upto - 1)
    }
}

/// The counts after a line of `cargo test` output. Only a summary line,
/// which holds `test result:`, changes them: each count is the word before
/// `passed;` or `failed;`.
pub open spec fn rust_line(tally: Tally, line: Seq<char>) -> Tally {
    if has_infix(line, "test result:"@) {
        let words = words_of(line);
        Tally {
            passed: count_before(words, "passed;"@, tally.passed, words.len() as int),
            failed: count_before(words, "failed;"@, tally.failed, words.len() as int),
        }
    } else {
        tally
    }
}

/// The counts after the first `upto` lines of `cargo test` output.
pub open spec fn rust_tally(lines: Seq<Seq<char>>, upto: int) -> Tally
    decreases upto,
{
    if upto <= 0 {
        Tally { passed: 0, failed: 0 }
    } else {
        rust_line(rust_tally(lines, upto - 1), lines[upto - 1])
    }
}

/// The counts that a `cargo test` output reports.
pub open spec fn rust_counts(output: Seq<char>) -> Tally {
    rust_tally(lines_of(output), lines_of(output).len() as int)
}

/// Reads the counts of a summary line of `cargo test`.
fn read_rust_line(line: &str, tally: (u32, u32)) -> (r: (u32, u32))
    requires
        has_infix(line@, "test result:"@),
    ensures
        (Tally { passed: r.0, failed: r.1 }) == rust_line(
            Tally { passed: tally.0, failed: tally.1 },
            line@,
        ),
{
    let words = split_whitespace(line);
    let mut passed = tally.0;
    let mut failed = tally.1;
    let mut i: usize = 0;
    while i < words.len()
        invariant
            i <= words@.len(),
            words.deep_view() == words_of(line@),
            passed == count_before(words.deep_view(), "passed;"@, tally.0, i as int),
            failed == count_before(words.deep_view(), "failed;"@, tally.1, i as int),
        decreases words@.len() - i,
    {
        let word = words[i].as_str();
        assert(words.deep_view()[i as int] == word@);
        if i > 0 {
            assert(words.deep_view()[i - 1] == words@[i - 1]@);
            if crate::text::equals(word, "passed;") {
                passed = parse_u32_or_zero(words[i - 1].as_str());
            }
            if crate::text::equals(word, "failed;") {
                failed = parse_u32_or_zero(words[i - 1].as_str());
            }
        }
        i += 1;
    }
    (passed, failed)
}

/// Reads the counts of passed and failed tests from the output of
/// `cargo test`. The last summary line that names a count decides it.
pub fn parse_rust_test_output(output: &str) -> (r: Result<TestResult, TestOutputError>)
    ensures
        match r {
            Ok(result) => result@ == rust_counts(output@) && result.total == result.passed
                + result.failed && result.output@ == output@,
            Err(e) => rust_counts(output@).passed + rust_counts(output@).failed > u32::MAX,
        },
{
    let all = lines(output);
    let mut tally: (u32, u32) = (0, 0);
    let mut k: usize = 0;
    while k < all.len()
        invariant
            k <= all@.len(),
            all.deep_view() == lines_of(output@),
            (Tally { passed: tally.0, failed: tally.1 }) == rust_tally(all.deep_view(), k as int),
        decreases all@.len() - k,
    {
        let line = all[k].as_str();
        assert(all.deep_view()[k as int] == line@);
        if contains(line, "test result:") {
            tally = read_rust_line(line, tally);
        }
        k += 1;
    }
    tallied(tally.0, tally.1, String::from_str(output))
}

/// The text that follows the first occurrence of `needle` in `s`.
pub open spec fn after_first(s: Seq<char>, needle: Seq<char>) -> Option<Seq<char>> {
    match first_occurrence(s, needle, 0) {
        Some(k) => Some(s.skip(k + needle.len())),
        None => None,
    }
}

/// The text that precedes the first occurrence of `needle` in `s`; all of
/// `s` if there is none.
pub open spec fn before_first(s: Seq<char>, needle: Seq<char>) -> Seq<char> {
    match first_occurrence(s, needle, 0) {
        Some(k) => s.take(k),
        None => s,
    }
}

/// The number of failures that a line of `unittest` output names: what
/// stands after its first `failures=`, up to the next `failures=` or
/// closing bracket.
pub open spec fn failures_named(line: Seq<char>) -> Option<u32> {
    match after_first(line, "failures="@) {
        Some(rest) => {
            let part = before_first(rest, "failures="@);
            Some(u32_or_zero(part.take(index_of(part, ')') as int)))
        },
        None => None,
    }
}

/// The number of failures after the first `upto` lines: the last line that
/// names one decides.
pub open spec fn failures_upto(lines: Seq<Seq<char>>, current: u32, upto: int) -> u32
    decreases upto,
{
    if upto <= 0 {
        current
    } else {
        match failures_named(lines[upto - 1]) {
            Some(n) => n,
            None => failures_upto(lines, current, upto - 1),
        }
    }
}

/// The number of tests that a `Ran N tests` line names: its second word.
pub open spec fn tests_ran(line: Seq<char>) -> Option<u32> {
    if has_prefix(line, "Ran "@) && has_infix(line, "test"@) && words_of(line).len() >= 2 {
        Some(u32_or_zero(words_of(line)[1]))
    } else {
        None
    }
}

/// The number that is left of `a` when `b` is taken away, and 0 if `b` is
/// the larger.
pub open spec fn minus_or_zero(a: u32, b: u32) -> u32 {
    if a >= b {
        (a - b) as u32
    } else {
        0
    }
}

/// The counts after a line of `unittest` output. Only a `Ran N tests` line
/// changes them. If the output holds `OK`, all N tests passed. If not, and
/// the output holds `FAILED`, the failures are those that the output names,
/// and the rest of the N tests passed.
pub open spec fn python_line(tally: Tally, line: Seq<char>, output: Seq<char>) -> Tally {
    match tests_ran(line) {
        Some(total) => if has_infix(output, "OK"@) {
            Tally { passed: total, failed: tally.failed }
        } else if has_infix(output, "FAILED"@) {
            let failed = failures_upto(lines_of(output), tally.failed, lines_of(output).len() as int);
            Tally { passed: minus_or_zero(total, failed), failed }
        } else {
            tally
        },
        None => tally,
    }
}

/// The counts after the first `upto` lines of `unittest` output.
pub open spec fn python_tally(output: Seq<char>, upto: int) -> Tally
    decreases upto,
{
    if upto <= 0 {
        Tally { passed: 0, failed: 0 }
    } else {
        python_line(python_tally(output, upto - 1), lines_of(output)[upto - 1], output)
    }
}

/// The counts that a `unittest` output reports.
pub open spec fn python_counts(output: Seq<char>) -> Tally {
    python_tally(output, lines_of(output).len() as int)
}

/// The text `v[..k]`, or `v` whole, up to the first `needle`.
fn cut_before(v: &Vec<char>, needle: &str) -> (r: Vec<char>)
    ensures
        r@ == before_first(v@, needle@),
{
    let p = to_chars(needle);
    let end = match find(v, &p) {
        Some(k) => k,
        None => v.len(),
    };
    let mut r: Vec<char> = Vec::new();
    let mut i: usize = 0;
    while i < end
        invariant
            i <= end <= v@.len(),
            r@ == v@.take(i as int),
        decreases end - i,
    {
        r.push(v[i]);
        i += 1;
        assert(r@ =~= v@.take(i as int));
    }
    assert(v@.take(v@.len() as int) =~= v@);
    r
}

/// The number of failures that a line names.
fn read_failures(line: &str) -> (r: Option<u32>)
    ensures
        r == failures_named(line@),
{
    let v = to_chars(line);
    let p = to_chars("failures=");
    match find(&v, &p) {
        Some(k) => {
            let mut rest: Vec<char> = Vec::new();
            let n = v.len();
            let mut i: usize = k + p.len();
            assert(v@.skip(k + p@.len()).take(0) =~= Seq::<char>::empty());
            while i < v.len()
                invariant
                    k + p@.len() <= i <= v@.len(),
                    rest@ == v@.skip(k + p@.len()).take(i - k - p@.len()),
                decreases v@.len() - i,
            {
                rest.push(v[i]);
                i += 1;
                assert(rest@ =~= v@.skip(k + p@.len()).take(i - k - p@.len()));
            }
            assert(rest@ =~= v@.skip(k + p@.len()));
            let part = cut_before(&rest, "failures=");
            let end = find_char(&part, 0, ')');
            assert(part@.skip(0) =~= part@);
            let numeral = from_chars(&part, 0, end);
            assert(part@.subrange(0, end as int) =~= part@.take(end as int));
            Some(parse_u32_or_zero(numeral.as_str()))
        },
        None => None,
    }
}

/// The number of tests that a `Ran N tests` line names.
fn read_tests_ran(line: &str) -> (r: Option<u32>)
    ensures
        r == tests_ran(line@),
{
    if starts_with(line, "Ran ") && contains(line, "test") {
        let words = split_whitespace(line);
        if words.len() >= 2 {
            assert(words.deep_view()[1] == words@[1]@);
            return Some(parse_u32_or_zero(words[1].as_str()));
        }
    }
    None
}

/// Reads the counts of passed and failed tests from the output of Python's
/// `unittest`.
pub fn parse_python_test_output(output: &str) -> (r: Result<TestResult, TestOutputError>)
    ensures
        match r {
            Ok(result) => result@ == python_counts(output@) && result.total == result.passed
                + result.failed && result.output@ == output@,
            Err(e) => python_counts(output@).passed + python_counts(output@).failed > u32::MAX,
        },
{
    let all = lines(output);
    let ok = contains(output, "OK");
    let bad = contains(output, "FAILED");
    let mut passed: u32 = 0;
    let mut failed: u32 = 0;
    let mut k: usize = 0;
    while k < all.len()
        invariant
            k <= all@.len(),
            all.deep_view() == lines_of(output@),
            ok == has_infix(output@, "OK"@),
            bad == has_infix(output@, "FAILED"@),
            (Tally { passed, failed }) == python_tally(output@, k as int),
        decreases all@.len() - k,
    {
        let line = all[k].as_str();
        assert(all.deep_view()[k as int] == line@);
        match read_tests_ran(line) {
            Some(total) => {
                if ok {
                    passed = total;
                } else if bad {
                    let mut j: usize = 0;
                    let ghost start = failed;
                    while j < all.len()
                        invariant
                            j <= all@.len(),
                            all.deep_view() == lines_of(output@),
                            failed == failures_upto(all.deep_view(), start, j as int),
                        decreases all@.len() - j,
                    {
                        assert(all.deep_view()[j as int] == all@[j as int]@);
                        match read_failures(all[j].as_str()) {
                            Some(n) => {
                                failed = n;
                            },
                            None => {},
                        }
                        j += 1;
                    }
                    passed = if total >= failed {
                        total - failed
                    } else {
                        0
                    };
                }
            },
            None => {},
        }
        k += 1;
    }
    tallied(passed, failed, String::from_str(output))
}

/// The last word of a text, if it has a word.
pub open spec fn last_word(s: Seq<char>) -> Option<Seq<char>> {
    if words_of(s).len() > 0 {
        Some(words_of(s).last())
    } else {
        None
    }
}

/// The counts after a line of `pytest` output. The number of passed tests
/// is the word before the first `passed`; the number of failed tests is the
/// last word between the last comma before the first `failed` and that
/// `failed`. A line that lacks such a word leaves the count as it is.
pub open spec fn pytest_line(tally: Tally, line: Seq<char>) -> Tally {
    Tally {
        passed: match first_occurrence(line, "passed"@, 0) {
            Some(k) => match last_word(line.take(k)) {
                Some(word) => u32_or_zero(word),
                None => tally.passed,
            },
            None => tally.passed,
        },
        failed: match first_occurrence(line, "failed"@, 0) {
            Some(k) => match last_word(split_on(line.take(k), ',').last()) {
                Some(word) => u32_or_zero(word),
                None => tally.failed,
            },
            None => tally.failed,
        },
    }
}

/// The counts after the first `upto` lines of `pytest` output.
pub open spec fn pytest_tally(lines: Seq<Seq<char>>, upto: int) -> Tally
    decreases upto,
{
    if upto <= 0 {
        Tally { passed: 0, failed: 0 }
    } else {
        pytest_line(pytest_tally(lines, upto - 1), lines[upto - 1])
    }
}

/// What `pytest` wrote: its standard output, a line feed, and its standard
/// error.
pub open spec fn pytest_text(stdout: Seq<char>, stderr: Seq<char>) -> Seq<char> {
    stdout + "\n"@ + stderr
}

/// The counts that a `pytest` run reports.
pub open spec fn pytest_counts(stdout: Seq<char>, stderr: Seq<char>) -> Tally {
    let all = lines_of(pytest_text(stdout, stderr));
    pytest_tally(all, all.len() as int)
}

/// The last word of a text.
fn read_last_word(s: &str) -> (r: Option<String>)
    ensures
        r.deep_view() == last_word(s@),
{
    let mut words = split_whitespace(s);
    let n = words.len();
    if n > 0 {
        assert(words.deep_view().last() == words@[n - 1]@);
        words.pop()
    } else {
        None
    }
}

/// Reads the counts of one line of `pytest` output.
fn read_pytest_line(line: &str, tally: (u32, u32)) -> (r: (u32, u32))
    ensures
        (Tally { passed: r.0, failed: r.1 }) == pytest_line(
            Tally { passed: tally.0, failed: tally.1 },
            line@,
        ),
{
    let v = to_chars(line);
    let mut passed = tally.0;
    let mut failed = tally.1;
    let passed_mark = to_chars("passed");
    match find(&v, &passed_mark) {
        Some(k) => {
            let before = from_chars(&v, 0, k);
            assert(v@.subrange(0, k as int) =~= v@.take(k as int));
            match read_last_word(before.as_str()) {
                Some(word) => {
                    passed = parse_u32_or_zero(word.as_str());
                },
                None => {},
            }
        },
        None => {},
    }
    let failed_mark = to_chars("failed");
    match find(&v, &failed_mark) {
        Some(k) => {
            let before = from_chars(&v, 0, k);
            assert(v@.subrange(0, k as int) =~= v@.take(k as int));
            let mut pieces = split(before.as_str(), ',');
            proof {
                crate::text::lemma_split_nonempty(before@, ',');
            }
            let n = pieces.len();
            assert(pieces.deep_view().last() == pieces@[n - 1]@);
            let piece = pieces.pop();
            match piece {
                Some(piece) => {
                    match read_last_word(piece.as_str()) {
                        Some(word) => {
                            failed = parse_u32_or_zero(word.as_str());
                        },
                        None => {},
                    }
                },
                None => {},
            }
        },
        None => {},
    }
    (passed, failed)
}

/// Reads the counts of passed and failed tests from what `pytest` wrote to
/// its standard output and standard error.
pub fn parse_pytest_output(stdout: &str, stderr: &str) -> (r: Result<TestResult, TestOutputError>)
    ensures
        match r {
            Ok(result) => result@ == pytest_counts(stdout@, stderr@) && result.total
                == result.passed + result.failed && result.output@ == pytest_text(
                stdout@,
                stderr@,
            ),
            Err(e) => pytest_counts(stdout@, stderr@).passed + pytest_counts(
                stdout@,
                stderr@,
            ).failed > u32::MAX,
        },
{
    let mut combined = String::from_str(stdout);
    combined.append("\n");
    combined.append(stderr);
    let all = lines(combined.as_str());
    let mut tally: (u32, u32) = (0, 0);
    let mut k: usize = 0;
    while k < all.len()
        invariant
            k <= all@.len(),
            all.deep_view() == lines_of(pytest_text(stdout@, stderr@)),
            (Tally { passed: tally.0, failed: tally.1 }) == pytest_tally(all.deep_view(), k as int),
        decreases all@.len() - k,
    {
        let line = all[k].as_str();
        assert(all.deep_view()[k as int] == line@);
        tally = read_pytest_line(line, tally);
        k += 1;
    }
    tallied(tally.0, tally.1, combined)
}

/// A Rust file path placed under `src/`: a path that already begins with
/// `src/` or `src\` stays as it is.
pub open spec fn under_src(path: Seq<char>) -> Seq<char> {
    if has_prefix(path, "src/"@) || has_prefix(path, "src\\"@) {
        path
    } else {
        "src/"@ + path
    }
}

/// Places a Rust file path under `src/`.
pub fn normalize_rust_path(path: &str) -> (r: String)
    ensures
        r@ == under_src(path@),
{
    if starts_with(path, "src/") || starts_with(path, "src\\") {
        String::from_str(path)
    } else {
        String::from_str("src/").concat(path)
    }
}

/// A Rust program that holds a code and its tests in a test module.
pub open spec fn rust_program(code: Seq<char>, test_code: Seq<char>) -> Seq<char> {
    code + "\n\n#[cfg(test)]\nmod tests {\n    use super::*;\n"@ + test_code + "\n}"@
}

/// A Python program that holds a code and its tests in a test case.
pub open spec fn python_program(code: Seq<char>, test_code: Seq<char>) -> Seq<char> {
    code + "\n\nimport unittest\n\nclass TestGenerated(unittest.TestCase):\n"@ + test_code
        + "\n\nif __name__ == '__main__':\n    unittest.main(verbosity=2)"@
}

/// A TypeScript program that holds a code and its tests.
pub open spec fn typescript_program(code: Seq<char>, test_code: Seq<char>) -> Seq<char> {
    code + "\n\n"@ + test_code
}

/// The Rust program that is compiled to test a code.
pub fn rust_test_program(code: &str, test_code: &str) -> (program: String)
    ensures
        program@ == rust_program(code@, test_code@),
{
    let mut program = String::from_str(code);
    program.append("\n\n#[cfg(test)]\nmod tests {\n    use super::*;\n");
    program.append(test_code);
    program.append("\n}");
    program
}

/// The Python program that is run to test a code.
pub fn python_test_program(code: &str, test_code: &str) -> (program: String)
    ensures
        program@ == python_program(code@, test_code@),
{
    let mut program = String::from_str(code);
    program.append("\n\nimport unittest\n\nclass TestGenerated(unittest.TestCase):\n");
    program.append(test_code);
    program.append("\n\nif __name__ == '__main__':\n    unittest.main(verbosity=2)");
    program
}

/// The TypeScript program that is run to test a code.
pub fn typescript_test_program(code: &str, test_code: &str) -> (program: String)
    ensures
        program@ == typescript_program(code@, test_code@),
{
    let mut program = String::from_str(code);
    program.append("\n\n");
    program.append(test_code);
    program
}

/// The result of a run that counts as one failed test, with a note that
/// says why.
pub fn one_failure(lead: &str, stderr: &str) -> (result: TestResult)
    ensures
        result.passed == 0,
        result.failed == 1,
        result.total == 1,
        result.output@ == lead@ + stderr@,
{
    TestResult { passed: 0, failed: 1, total: 1, output: String::from_str(lead).concat(stderr) }
}

/// The result for a test program that did not compile.
pub fn compilation_failed(stderr: &str) -> (result: TestResult)
    ensures
        result.passed == 0,
        result.failed == 1,
        result.total == 1,
        result.output@ == "Compilation failed: "@ + stderr@,
{
    one_failure("Compilation failed: ", stderr)
}

/// The result of a run that counts as one test: passed if the run
/// succeeded, failed if not.
pub fn single_outcome(success: bool, stdout: &str, stderr: &str) -> (result: TestResult)
    ensures
        result.passed == if success {
            1u32
        } else {
            0u32
        },
        result.failed == if success {
            0u32
        } else {
            1u32
        },
        result.total == 1,
        result.output@ == stdout@ + stderr@,
{
    TestResult {
        passed: if success {
            1
        } else {
            0
        },
        failed: if success {
            0
        } else {
            1
        },
        total: 1,
        output: String::from_str(stdout).concat(stderr),
    }
}

/// The result where there is nothing to run.
pub fn no_tests_found() -> (result: TestResult)
    ensures
        result.passed == 0,
        result.failed == 0,
        result.total == 0,
        result.output@ == "No test files found"@,
{
    TestResult { passed: 0, failed: 0, total: 0, output: String::from_str("No test files found") }
}

/// The result of running the tests that a Rust project brings. A run that
/// failed without writing to its standard output did not build, and counts
/// as one failed test; any other run is read from its standard output.
pub fn rust_own_tests_result(success: bool, stdout: &str, stderr: &str) -> (r: Result<
    TestResult,
    TestOutputError,
>)
    ensures
        if !success && stdout@.len() == 0 {
            r matches Ok(result) && result.passed == 0 && result.failed == 1 && result.total == 1
                && result.output@ == "Build/test failed: "@ + stderr@
        } else {
            match r {
                Ok(result) => result@ == rust_counts(stdout@) && result.total == result.passed
                    + result.failed && result.output@ == stdout@,
                Err(e) => rust_counts(stdout@).passed + rust_counts(stdout@).failed > u32::MAX,
            }
        },
{
    if !success && stdout.is_empty() {
        Ok(one_failure("Build/test failed: ", stderr))
    } else {
        parse_rust_test_output(stdout)
    }
}

/// The file with which the tests of a TypeScript project are started: the
/// first test file, or `test.ts` where there is none.
pub fn test_entry(test_files: &Vec<SourceFile>) -> (entry: String)
    ensures
        entry@ == if test_files@.len() > 0 {
            test_files@[0].path@
        } else {
            "test.ts"@
        },
{
    if test_files.len() > 0 {
        test_files[0].path.clone()
    } else {
        String::from_str("test.ts")
    }
}

/// The index of the first of `files[from..]` whose path holds `test`.
pub open spec fn first_test_file(files: Seq<SourceFile>, from: int) -> Option<int>
    decreases files.len() - from,
{
    if from < 0 || from >= files.len() {
        None
    } else if has_infix(files[from].path@, "test"@) {
        Some(from)
    } else {
        first_test_file(files, from + 1)
    }
}

/// The file with which a TypeScript project tests itself: the first file
/// whose path holds `test`, or else the first file.
pub fn own_test_entry(source_files: &Vec<SourceFile>) -> (entry: Option<usize>)
    ensures
        match entry {
            Some(i) => i < source_files@.len() && match first_test_file(source_files@, 0) {
                Some(k) => k == i,
                None => i == 0,
            },
            None => source_files@.len() == 0,
        },
{
    let mut i: usize = 0;
    while i < source_files.len()
        invariant
            i <= source_files@.len(),
            first_test_file(source_files@, 0) == first_test_file(source_files@, i as int),
        decreases source_files@.len() - i,
    {
        if contains(source_files[i].path.as_str(), "test") {
            return Some(i);
        }
        i += 1;
    }
    if source_files.len() > 0 {
        Some(0)
    } else {
        None
    }
}

/// Whether a project is run as one program: it has one source file and one
/// test file.
pub fn runs_as_single(source_files: &Vec<SourceFile>, test_files: &Vec<SourceFile>) -> (b: bool)
    ensures
        b == (source_files@.len() == 1 && test_files@.len() == 1),
{
    source_files.len() == 1 && test_files.len() == 1
}

/// The manifest that a Rust project gets for its tests when it brings
/// none.
pub fn default_test_manifest() -> (text: &'static str)
    ensures
        text@ == "[package]\nname = \"benchmark_project\"\nversion = \"0.1.0\"\nedition = \"2021\"\n\n[dependencies]\n\n[dev-dependencies]\n"@,
{
    "[package]\nname = \"benchmark_project\"\nversion = \"0.1.0\"\nedition = \"2021\"\n\n[dependencies]\n\n[dev-dependencies]\n"
}

/// The settings with which the tests of a TypeScript project are run.
pub fn test_tsconfig() -> (text: &'static str)
    ensures
        text@ == "{\n  \"compilerOptions\": {\n    \"strict\": true,\n    \"esModuleInterop\": true,\n    \"skipLibCheck\": true,\n    \"outDir\": \"./dist\"\n  },\n  \"include\": [\"**/*.ts\"]\n}"@,
{
    "{\n  \"compilerOptions\": {\n    \"strict\": true,\n    \"esModuleInterop\": true,\n    \"skipLibCheck\": true,\n    \"outDir\": \"./dist\"\n  },\n  \"include\": [\"**/*.ts\"]\n}"
}

} // verus!
