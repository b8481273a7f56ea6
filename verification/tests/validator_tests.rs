use code_warrior::compiler::ExecutionOutput;
use code_warrior::levels::validator::{
    grade_case, summarize_results, SuccessCriteria, TestCaseResult,
};

fn output_with(stdout: &str) -> ExecutionOutput {
    let mut out = ExecutionOutput::default();
    out.stdout = stdout.to_string();
    out
}

#[test]
fn exact_match_compares_trimmed_output() {
    let c = SuccessCriteria::ExactMatch { expected_stdout: "42".to_string() };
    assert!(c.validate(&output_with("  42\n")));
    assert!(c.validate(&output_with("42")));
    assert!(!c.validate(&output_with("43")));
    assert!(!c.validate(&output_with("4 2")));
}

#[test]
fn regex_match_uses_the_pattern() {
    let c = SuccessCriteria::RegexMatch { regex: "^h[aeiou]llo".to_string() };
    assert!(c.validate(&output_with("hello world")));
    assert!(!c.validate(&output_with("hxllo world")));
    // an invalid pattern matches nothing
    let broken = SuccessCriteria::RegexMatch { regex: "(".to_string() };
    assert!(!broken.validate(&output_with("anything")));
}

#[test]
fn output_count_counts_tokens() {
    let c = SuccessCriteria::OutputCount { token: "ab".to_string(), count: 2 };
    assert!(c.validate(&output_with("ab cd ab")));
    assert!(!c.validate(&output_with("ab")));
    // non-overlapping, scanning left to right
    let c = SuccessCriteria::OutputCount { token: "aa".to_string(), count: 1 };
    assert!(c.validate(&output_with("aaa")));
}

#[test]
fn compile_only_and_combinators() {
    let compiled = output_with("whatever");
    let mut failed = ExecutionOutput::default();
    failed.compile_err = Some("boom".to_string());

    assert!(SuccessCriteria::CompileOnly.validate(&compiled));
    assert!(!SuccessCriteria::CompileOnly.validate(&failed));

    let all = SuccessCriteria::All {
        criteria: vec![
            SuccessCriteria::CompileOnly,
            SuccessCriteria::OutputCount { token: "what".to_string(), count: 1 },
        ],
    };
    assert!(all.validate(&compiled));
    assert!(!all.validate(&failed));

    let any = SuccessCriteria::Any {
        criteria: vec![
            SuccessCriteria::ExactMatch { expected_stdout: "nope".to_string() },
            SuccessCriteria::CompileOnly,
        ],
    };
    assert!(any.validate(&compiled));

    let empty_all = SuccessCriteria::All { criteria: vec![] };
    let empty_any = SuccessCriteria::Any { criteria: vec![] };
    assert!(empty_all.validate(&compiled));
    assert!(!empty_any.validate(&compiled));
}

#[test]
fn grading_trims_both_sides() {
    assert!(grade_case("5", "5\n"));
    assert!(grade_case(" 30 ", "30"));
    assert!(!grade_case("5", "50"));
}

fn case(passed: bool) -> TestCaseResult {
    TestCaseResult {
        input: vec![],
        expected: "x".to_string(),
        actual: if passed { "x" } else { "y" }.to_string(),
        passed,
    }
}

#[test]
fn suite_summary_counts_passes() {
    let suite = summarize_results(vec![case(true), case(false), case(true)]);
    assert_eq!(suite.total, 3);
    assert_eq!(suite.passed_count, 2);
    assert!(!suite.passed);
    assert!(suite.compilation_error.is_none());

    let suite = summarize_results(vec![case(true), case(true)]);
    assert!(suite.passed);
    assert_eq!(suite.passed_count, 2);

    let suite = summarize_results(vec![]);
    assert!(suite.passed);
    assert_eq!(suite.total, 0);
}
