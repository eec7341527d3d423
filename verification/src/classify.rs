use vstd::prelude::*;

use crate::felt::Felt;
use crate::felt::felts_eq;
use crate::felt::felts_view;
use crate::felt::spec_low_u64;
use crate::outcome::PanicExpectation;
use crate::outcome::RunOutcome;
use crate::outcome::RunResultValue;
use crate::outcome::TestExpectation;
use crate::outcome::TestResult;
use crate::outcome::TestStatus;

verus! {

/// The classification table: what one test's expectation and its observed
/// result value make of the run.
pub open spec fn spec_classify(exp: TestExpectation, value: RunResultValue) -> TestStatus {
    match value {
        RunResultValue::Success(_) => match exp {
            TestExpectation::Success => TestStatus::Success,
            TestExpectation::Panics(_) => TestStatus::Fail(value),
        },
        RunResultValue::Panic(vs) => match exp {
            TestExpectation::Success => TestStatus::Fail(value),
            TestExpectation::Panics(PanicExpectation::Any) => TestStatus::Success,
            TestExpectation::Panics(PanicExpectation::Exact(expected)) => {
                if felts_view(vs@) == felts_view(expected@) {
                    TestStatus::Success
                } else {
                    TestStatus::Fail(value)
                }
            },
        },
    }
}

/// Classifies one observed result value against the test's expectation.
pub fn classify(exp: &TestExpectation, value: RunResultValue) -> (s: TestStatus)
    ensures
        s == spec_classify(*exp, value),
{
    match value {
        RunResultValue::Success(vs) => match exp {
            TestExpectation::Success => TestStatus::Success,
            TestExpectation::Panics(_) => TestStatus::Fail(RunResultValue::Success(vs)),
        },
        RunResultValue::Panic(vs) => match exp {
            TestExpectation::Success => TestStatus::Fail(RunResultValue::Panic(vs)),
            TestExpectation::Panics(PanicExpectation::Any) => TestStatus::Success,
            TestExpectation::Panics(PanicExpectation::Exact(expected)) => {
                if felts_eq(&vs, expected) {
                    TestStatus::Success
                } else {
                    TestStatus::Fail(RunResultValue::Panic(vs))
                }
            },
        },
    }
}

/// The recorded gas usage: the low word of the counter, when one was
/// reported.
pub open spec fn spec_gas_of(gas_counter: Option<Felt>) -> Option<u64> {
    match gas_counter {
        None => None,
        Some(c) => Some(spec_low_u64(c@) as u64),
    }
}

/// The recorded result of one executed test, as a function of its
/// expectation and the observed outcome: the status from the classification
/// table, and the gas usage when the backend reported a counter.
pub open spec fn spec_result_of(exp: TestExpectation, o: RunOutcome) -> TestResult {
    TestResult { status: spec_classify(exp, o.value), gas_usage: spec_gas_of(o.gas_counter) }
}

/// Turns one backend outcome into the recorded result of a test, exactly as
/// `spec_result_of` says.
pub fn evaluate_outcome(exp: &TestExpectation, outcome: RunOutcome) -> (r: TestResult)
    requires
        outcome.wf(),
    ensures
        r == spec_result_of(*exp, outcome),
        r.status == spec_classify(*exp, outcome.value),
{
    let gas_usage: Option<u64> = match &outcome.gas_counter {
        Some(c) => Some(c.low_u64()),
        None => None,
    };
    TestResult { status: classify(exp, outcome.value), gas_usage }
}

/// A run that succeeds meets the expectation of success.
pub proof fn lemma_classify_success_success(vs: Vec<Felt>)
    ensures
        spec_classify(TestExpectation::Success, RunResultValue::Success(vs))
            == TestStatus::Success,
{
}

/// A run that panics fails the expectation of success, keeping its payload.
pub proof fn lemma_classify_success_panic(vs: Vec<Felt>)
    ensures
        spec_classify(TestExpectation::Success, RunResultValue::Panic(vs)) == TestStatus::Fail(
            RunResultValue::Panic(vs),
        ),
{
}

/// A run that panics meets the expectation of some panic, whatever it carries.
pub proof fn lemma_classify_any_panic(vs: Vec<Felt>)
    ensures
        spec_classify(
            TestExpectation::Panics(PanicExpectation::Any),
            RunResultValue::Panic(vs),
        ) == TestStatus::Success,
{
}

/// A run that succeeds fails the expectation of a panic.
pub proof fn lemma_classify_panic_expected_success(exp: PanicExpectation, vs: Vec<Felt>)
    ensures
        spec_classify(TestExpectation::Panics(exp), RunResultValue::Success(vs))
            == TestStatus::Fail(RunResultValue::Success(vs)),
{
}

/// A panic with exactly the expected payload meets an exact-panic expectation.
pub proof fn lemma_classify_exact_panic_match(expected: Vec<Felt>, vs: Vec<Felt>)
    requires
        felts_view(vs@) == felts_view(expected@),
    ensures
        spec_classify(
            TestExpectation::Panics(PanicExpectation::Exact(expected)),
            RunResultValue::Panic(vs),
        ) == TestStatus::Success,
{
}

/// A panic with any other payload fails an exact-panic expectation, keeping
/// the observed payload.
pub proof fn lemma_classify_exact_panic_mismatch(expected: Vec<Felt>, vs: Vec<Felt>)
    requires
        felts_view(vs@) != felts_view(expected@),
    ensures
        spec_classify(
            TestExpectation::Panics(PanicExpectation::Exact(expected)),
            RunResultValue::Panic(vs),
        ) == TestStatus::Fail(RunResultValue::Panic(vs)),
{
}

} // verus!
