//! Output validation: legacy success criteria over a whole run's
//! output, and per-case grading for function challenges.

use vstd::prelude::*;
use vstd::string::*;

use crate::compiler::ExecutionOutput;
use crate::levels::loader::JsonVal;
use crate::strutil::{count_occ, count_occ_is, str_eq, str_trim, trim_seq};

verus! {

/// Whether a regular expression matches a text: the verdict of
/// `regex::Regex::new` followed by `is_match`, with an invalid pattern
/// counting as no match. The verdict depends on pattern and text alone.
pub uninterp spec fn regex_matches(pattern: Seq<char>, text: Seq<char>) -> bool;

/// Relies on regex::Regex::new and regex::Regex::is_match: compiling a
/// pattern and matching it against a text is a function of the two
/// strings alone; a pattern that does not compile matches nothing.
#[verifier::external_body]
fn regex_is_match(pattern: &str, text: &str) -> (r: bool)
    ensures
        r == regex_matches(pattern@, text@),
{
    regex::Regex::new(pattern).map(|re| re.is_match(text)).unwrap_or(false)
}

/// A legacy whole-program success criterion.
pub enum SuccessCriteria {
    /// Trimmed output must match the trimmed expected text exactly.
    ExactMatch { expected_stdout: String },
    /// Output must match a regular expression.
    RegexMatch { regex: String },
    /// A token must occur an exact number of times in the output.
    OutputCount { token: String, count: usize },
    /// The code need only compile.
    CompileOnly,
    /// Every criterion must pass.
    All { criteria: Vec<SuccessCriteria> },
    /// At least one criterion must pass.
    Any { criteria: Vec<SuccessCriteria> },
}

/// What a criterion says of an execution result.
pub open spec fn spec_validate(c: SuccessCriteria, o: ExecutionOutput) -> bool
    decreases c,
{
    match c {
        SuccessCriteria::ExactMatch { expected_stdout } => trim_seq(o.stdout@) == trim_seq(
            expected_stdout@,
        ),
        SuccessCriteria::RegexMatch { regex } => regex_matches(regex@, o.stdout@),
        SuccessCriteria::OutputCount { token, count } => count_occ(o.stdout@, token@) == count,
        SuccessCriteria::CompileOnly => o.compile_err is None,
        SuccessCriteria::All { criteria } => forall|i: int|
            0 <= i < criteria@.len() ==> spec_validate(#[trigger] criteria@[i], o),
        SuccessCriteria::Any { criteria } => exists|i: int|
            0 <= i < criteria@.len() && spec_validate(#[trigger] criteria@[i], o),
    }
}

impl SuccessCriteria {
    /// Validate an execution result against this criterion.
    pub fn validate(&self, output: &ExecutionOutput) -> (r: bool)
        ensures
            r == spec_validate(*self, *output),
        decreases *self,
    {
        match self {
            SuccessCriteria::ExactMatch { expected_stdout } => {
                let a = str_trim(output.stdout.as_str());
                let b = str_trim(expected_stdout.as_str());
                str_eq(a.as_str(), b.as_str())
            },
            SuccessCriteria::RegexMatch { regex } => {
                regex_is_match(regex.as_str(), output.stdout.as_str())
            },
            SuccessCriteria::OutputCount { token, count } => {
                count_occ_is(output.stdout.as_str(), token.as_str(), *count)
            },
            SuccessCriteria::CompileOnly => output.compile_success(),
            SuccessCriteria::All { criteria } => {
                let mut i: usize = 0;
                while i < criteria.len()
                    invariant
                        i <= criteria@.len(),
                        spec_validate(*self, *output) == (forall|j: int|
                            0 <= j < criteria@.len() ==> spec_validate(
                                #[trigger] criteria@[j],
                                *output,
                            )),
                        forall|j: int|
                            0 <= j < criteria@.len() ==> decreases_to!(*self => criteria@[j]),
                        forall|j: int|
                            0 <= j < i ==> spec_validate(#[trigger] criteria@[j], *output),
                    decreases criteria@.len() - i,
                {
                    if !criteria[i].validate(output) {
                        return false;
                    }
                    i = i + 1;
                }
                true
            },
            SuccessCriteria::Any { criteria } => {
                let mut i: usize = 0;
                while i < criteria.len()
                    invariant
                        i <= criteria@.len(),
                        spec_validate(*self, *output) == (exists|j: int|
                            0 <= j < criteria@.len() && spec_validate(
                                #[trigger] criteria@[j],
                                *output,
                            )),
                        forall|j: int|
                            0 <= j < criteria@.len() ==> decreases_to!(*self => criteria@[j]),
                        forall|j: int|
                            0 <= j < i ==> !spec_validate(#[trigger] criteria@[j], *output),
                    decreases criteria@.len() - i,
                {
                    if criteria[i].validate(output) {
                        return true;
                    }
                    i = i + 1;
                }
                false
            },
        }
    }
}

/// The result of one test case of a function challenge.
pub struct TestCaseResult {
    pub input: Vec<JsonVal>,
    pub expected: String,
    pub actual: String,
    pub passed: bool,
}

/// The result of a whole test run; a compilation error short-circuits
/// the suite with zero results.
pub struct TestSuiteResult {
    /// Every test passed.
    pub passed: bool,
    /// How many tests ran.
    pub total: usize,
    /// How many passed.
    pub passed_count: usize,
    /// The individual results.
    pub results: Vec<TestCaseResult>,
    /// The compiler's message, where compilation failed.
    pub compilation_error: Option<String>,
}

/// Grading of one case: the program's trimmed output must equal the
/// trimmed expected text, byte for byte.
pub fn grade_case(expected: &str, stdout: &str) -> (r: bool)
    ensures
        r == (trim_seq(stdout@) == trim_seq(expected@)),
{
    let a = str_trim(stdout);
    let b = str_trim(expected);
    str_eq(a.as_str(), b.as_str())
}

/// How many results passed.
pub open spec fn spec_passed_count(results: Seq<TestCaseResult>) -> nat {
    results.filter(|t: TestCaseResult| t.passed).len()
}

/// Aggregate per-case results into a suite result: the suite passes
/// exactly when every case passed.
pub fn summarize_results(results: Vec<TestCaseResult>) -> (r: TestSuiteResult)
    ensures
        r.total == results@.len(),
        r.passed_count == spec_passed_count(results@),
        r.passed == (forall|i: int| 0 <= i < results@.len() ==> (#[trigger] results@[i]).passed),
        r.results == results,
        r.compilation_error is None,
{
    let mut passed_count: usize = 0;
    let mut i: usize = 0;
    proof {
        reveal(Seq::filter);
        assert(results@.take(0) =~= Seq::<TestCaseResult>::empty());
    }
    while i < results.len()
        invariant
            i <= results@.len(),
            passed_count <= i,
            passed_count == spec_passed_count(results@.take(i as int)),
            (passed_count == i) == (forall|j: int|
                0 <= j < i ==> (#[trigger] results@[j]).passed),
        decreases results@.len() - i,
    {
        proof {
            assert(results@.take(i + 1) =~= results@.take(i as int).push(results@[i as int]));
            lemma_result_filter_push(results@.take(i as int), results@[i as int]);
            lemma_passed_count_bound(results@.take(i as int));
        }
        if results[i].passed {
            passed_count = passed_count + 1;
        }
        i = i + 1;
    }
    proof {
        assert(results@.take(results@.len() as int) =~= results@);
    }
    let total = results.len();
    TestSuiteResult {
        passed: passed_count == total,
        total,
        passed_count,
        results,
        compilation_error: None,
    }
}

proof fn lemma_result_filter_push(s: Seq<TestCaseResult>, x: TestCaseResult)
    ensures
        spec_passed_count(s.push(x)) == spec_passed_count(s) + (if x.passed {
            1int
        } else {
            0int
        }),
{
    reveal(Seq::filter);
    assert(s.push(x).drop_last() =~= s);
    assert(s.push(x).last() == x);
}

proof fn lemma_passed_count_bound(s: Seq<TestCaseResult>)
    ensures
        spec_passed_count(s) <= s.len(),
    decreases s.len(),
{
    reveal(Seq::filter);
    if s.len() > 0 {
        lemma_passed_count_bound(s.drop_last());
    }
}

} // verus!
