use cairo_runners::classify::classify;
use cairo_runners::classify::evaluate_outcome;
use cairo_runners::felt::Felt;
use cairo_runners::outcome::PanicExpectation;
use cairo_runners::outcome::RunOutcome;
use cairo_runners::outcome::RunResultValue;
use cairo_runners::outcome::TestExpectation;
use cairo_runners::outcome::TestStatus;

fn felt_of(tail: &[u8]) -> Felt {
    Felt::from_low_bytes(tail.to_vec())
}

#[test]
fn classify_expected_success_that_succeeds_passes() {
    let s = classify(&TestExpectation::Success, RunResultValue::Success(vec![]));
    assert!(matches!(s, TestStatus::Success));
}

#[test]
fn classify_expected_success_that_panics_fails() {
    let s = classify(
        &TestExpectation::Success,
        RunResultValue::Panic(vec![felt_of(b"boom")]),
    );
    assert!(matches!(s, TestStatus::Fail(RunResultValue::Panic(_))));
}

#[test]
fn classify_any_panic_expected_that_panics_passes() {
    let s = classify(
        &TestExpectation::Panics(PanicExpectation::Any),
        RunResultValue::Panic(vec![felt_of(b"whatever")]),
    );
    assert!(matches!(s, TestStatus::Success));
}

#[test]
fn classify_panic_expected_that_succeeds_fails() {
    let s = classify(
        &TestExpectation::Panics(PanicExpectation::Any),
        RunResultValue::Success(vec![felt_of(&[0x01])]),
    );
    assert!(matches!(s, TestStatus::Fail(RunResultValue::Success(_))));
}

#[test]
fn classify_exact_panic_with_same_payload_passes() {
    let s = classify(
        &TestExpectation::Panics(PanicExpectation::Exact(vec![felt_of(b"v")])),
        RunResultValue::Panic(vec![felt_of(b"v")]),
    );
    assert!(matches!(s, TestStatus::Success));
}

#[test]
fn classify_exact_panic_with_other_payload_fails() {
    let s = classify(
        &TestExpectation::Panics(PanicExpectation::Exact(vec![felt_of(b"v")])),
        RunResultValue::Panic(vec![felt_of(b"v2")]),
    );
    match s {
        TestStatus::Fail(RunResultValue::Panic(vs)) => {
            assert_eq!(vs.len(), 1);
            assert!(vs[0].eq_felt(&felt_of(b"v2")));
        },
        _ => panic!("expected the observed payload to be kept"),
    }
}

#[test]
fn classify_exact_panic_with_longer_payload_fails() {
    let s = classify(
        &TestExpectation::Panics(PanicExpectation::Exact(vec![felt_of(b"v")])),
        RunResultValue::Panic(vec![felt_of(b"v"), felt_of(b"w")]),
    );
    assert!(matches!(s, TestStatus::Fail(_)));
}

#[test]
fn evaluate_records_gas_when_reported() {
    let outcome = RunOutcome {
        value: RunResultValue::Success(vec![]),
        gas_counter: Some(felt_of(&[0x03, 0xe8])),
        memory: vec![],
    };
    let r = evaluate_outcome(&TestExpectation::Success, outcome);
    assert!(matches!(r.status, TestStatus::Success));
    assert_eq!(r.gas_usage, Some(1000));
}

#[test]
fn evaluate_without_gas_counter() {
    let outcome = RunOutcome {
        value: RunResultValue::Panic(vec![]),
        gas_counter: None,
        memory: vec![],
    };
    let r = evaluate_outcome(&TestExpectation::Panics(PanicExpectation::Any), outcome);
    assert!(matches!(r.status, TestStatus::Success));
    assert_eq!(r.gas_usage, None);
}
