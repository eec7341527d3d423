use cairo_runners::api::test_response_of;
use cairo_runners::backend::ScriptedBackend;
use cairo_runners::felt::Felt;
use cairo_runners::outcome::PanicExpectation;
use cairo_runners::outcome::RunOutcome;
use cairo_runners::outcome::RunResultValue;
use cairo_runners::outcome::TestConfig;
use cairo_runners::outcome::TestExpectation;
use cairo_runners::outcome::TestRunConfig;
use cairo_runners::outcome::TestStatus;
use cairo_runners::outcome::TestResult;
use cairo_runners::test_runner::compilation_failure_text;
use cairo_runners::test_runner::run_suite;
use cairo_runners::test_runner::run_tests_with;
use cairo_runners::test_runner::update_summary;

fn felt_of(tail: &[u8]) -> Felt {
    Felt::from_low_bytes(tail.to_vec())
}

fn success() -> RunOutcome {
    RunOutcome { value: RunResultValue::Success(vec![]), gas_counter: None, memory: vec![] }
}

fn panic_with(tail: &[u8]) -> RunOutcome {
    RunOutcome {
        value: RunResultValue::Panic(vec![felt_of(tail)]),
        gas_counter: None,
        memory: vec![],
    }
}

fn expect_success(ignored: bool) -> TestConfig {
    TestConfig { available_gas: None, expectation: TestExpectation::Success, ignored }
}

fn config() -> TestRunConfig {
    TestRunConfig { include_ignored: false }
}

#[test]
fn suite_of_two_tests_one_passing_one_failing() {
    let named_tests = vec![
        ("lib::test_pass".to_string(), expect_success(false)),
        ("lib::test_fail".to_string(), expect_success(false)),
    ];
    let mut backend = ScriptedBackend::new(vec![success(), panic_with(b"should fail")]);
    let summary = run_tests_with(named_tests, &mut backend, &config()).unwrap();
    assert!(summary.notes().contains("running 2 tests"));
    assert!(summary.notes().contains("test lib::test_pass ... ok"));
    assert!(summary.notes().contains("test lib::test_fail ... fail"));
    assert_eq!(summary.passed().len(), 1);
    assert_eq!(summary.failed().len(), 1);
    assert_eq!(summary.passed()[0], "lib::test_pass");
    assert_eq!(summary.failed()[0], "lib::test_fail");
    assert_eq!(summary.failed_run_results().len(), 1);
}

#[test]
fn verdicts_account_for_every_discovered_test() {
    let named_tests = vec![
        ("a".to_string(), expect_success(false)),
        ("b".to_string(), expect_success(true)),
        ("c".to_string(), expect_success(false)),
        ("d".to_string(), expect_success(true)),
    ];
    let mut backend = ScriptedBackend::new(vec![success(), panic_with(b"x")]);
    let summary = run_tests_with(named_tests, &mut backend, &config()).unwrap();
    let ignored = 2;
    assert_eq!(summary.passed().len() + summary.failed().len() + ignored, 4);
    assert!(summary.notes().contains("test b ... ignored"));
    assert!(summary.notes().contains("test d ... ignored"));
}

#[test]
fn ignored_tests_never_reach_the_backend() {
    let named_tests = vec![
        ("a".to_string(), expect_success(false)),
        ("b".to_string(), expect_success(true)),
        ("c".to_string(), expect_success(false)),
    ];
    let mut backend = ScriptedBackend::new(vec![success(), success()]);
    let summary = run_tests_with(named_tests, &mut backend, &config()).unwrap();
    assert_eq!(backend.runs_made(), 2);
    assert_eq!(backend.remaining(), 0);
    assert_eq!(summary.passed().len(), 2);
}

#[test]
fn only_ignored_tests_means_no_backend_call_at_all() {
    let named_tests = vec![
        ("a".to_string(), expect_success(true)),
        ("b".to_string(), expect_success(true)),
    ];
    let mut backend = ScriptedBackend::new(vec![]);
    let summary = run_tests_with(named_tests, &mut backend, &config()).unwrap();
    assert_eq!(backend.runs_made(), 0);
    assert_eq!(summary.passed().len(), 0);
    assert_eq!(summary.failed().len(), 0);
    assert!(summary.notes().contains("running 2 tests"));
}

#[test]
fn include_ignored_runs_marked_tests() {
    let named_tests = vec![("a".to_string(), expect_success(true))];
    let mut backend = ScriptedBackend::new(vec![success()]);
    let cfg = TestRunConfig { include_ignored: true };
    let summary = run_tests_with(named_tests, &mut backend, &cfg).unwrap();
    assert_eq!(backend.runs_made(), 1);
    assert_eq!(summary.passed().len(), 1);
}

#[test]
fn should_panic_test_whose_body_panics_passes() {
    let named_tests = vec![(
        "lib::test_should_panic".to_string(),
        TestConfig {
            available_gas: None,
            expectation: TestExpectation::Panics(PanicExpectation::Any),
            ignored: false,
        },
    )];
    let mut backend = ScriptedBackend::new(vec![panic_with(b"panics")]);
    let summary = run_tests_with(named_tests, &mut backend, &config()).unwrap();
    assert_eq!(summary.passed().len(), 1);
    assert!(summary.failed().is_empty());
    assert!(summary.failed_run_results().is_empty());
    assert!(summary.notes().contains("test lib::test_should_panic ... ok"));
}

#[test]
fn exact_panic_expectation_matches_payload() {
    let named_tests = vec![
        (
            "lib::exact_ok".to_string(),
            TestConfig {
                available_gas: None,
                expectation: TestExpectation::Panics(PanicExpectation::Exact(vec![felt_of(b"v")])),
                ignored: false,
            },
        ),
        (
            "lib::exact_bad".to_string(),
            TestConfig {
                available_gas: None,
                expectation: TestExpectation::Panics(PanicExpectation::Exact(vec![felt_of(b"v")])),
                ignored: false,
            },
        ),
    ];
    let mut backend = ScriptedBackend::new(vec![panic_with(b"v"), panic_with(b"v2")]);
    let summary = run_tests_with(named_tests, &mut backend, &config()).unwrap();
    assert_eq!(summary.passed().len(), 1);
    assert_eq!(summary.failed().len(), 1);
    assert_eq!(summary.failed()[0], "lib::exact_bad");
}

#[test]
fn empty_suite_reports_zero_tests() {
    let mut backend = ScriptedBackend::new(vec![]);
    let summary = run_tests_with(vec![], &mut backend, &config()).unwrap();
    assert!(summary.passed().is_empty());
    assert!(summary.failed().is_empty());
    assert!(summary.failed_run_results().is_empty());
    assert_eq!(summary.notes(), "running 0 tests");
}

#[test]
fn single_test_header_is_singular() {
    let named_tests = vec![("a".to_string(), expect_success(false))];
    let mut backend = ScriptedBackend::new(vec![success()]);
    let summary = run_tests_with(named_tests, &mut backend, &config()).unwrap();
    assert!(summary.notes().starts_with("running 1 test\n"));
    assert!(!summary.notes().starts_with("running 1 tests"));
}

#[test]
fn backend_fault_poisons_the_whole_run() {
    let named_tests = vec![
        ("a".to_string(), expect_success(false)),
        ("b".to_string(), expect_success(false)),
    ];
    // Only one scripted outcome: the second test faults the backend.
    let mut backend = ScriptedBackend::new(vec![success()]);
    let result = run_tests_with(named_tests, &mut backend, &config());
    assert!(result.is_err());
}

#[test]
fn gas_estimate_appears_in_the_log_line() {
    let named_tests = vec![("a".to_string(), expect_success(false))];
    let outcome = RunOutcome {
        value: RunResultValue::Success(vec![]),
        gas_counter: Some(felt_of(&[0x64])),
        memory: vec![],
    };
    let mut backend = ScriptedBackend::new(vec![outcome]);
    let summary = run_tests_with(named_tests, &mut backend, &config()).unwrap();
    assert!(summary.notes().contains("test a ... ok (gas usage est.: 100)"));
}

#[test]
fn update_summary_poisoned_accumulator_discards_results() {
    let poisoned: Result<_, String> = Err("fault".to_string());
    let r = update_summary(
        poisoned,
        Ok(("a".to_string(), Some(TestResult { status: TestStatus::Success, gas_usage: None }))),
    );
    assert_eq!(r.err().unwrap(), "fault");
}

#[test]
fn update_summary_first_error_is_terminal() {
    let mut backend = ScriptedBackend::new(vec![]);
    let base = run_tests_with(vec![], &mut backend, &config());
    let r = update_summary(base, Err("backend exploded".to_string()));
    assert_eq!(r.err().unwrap(), "backend exploded");
}

#[test]
fn compilation_error_short_circuits_the_suite() {
    let text = compilation_failure_text("Compilation failed.", "error: Skipped tokens.");
    assert_eq!(text, "Compilation failed.\n\nerror: Skipped tokens.");
    let mut backend = ScriptedBackend::new(vec![success()]);
    let r = run_suite(Err(text.clone()), &mut backend, &config());
    assert_eq!(backend.runs_made(), 0);
    assert_eq!(backend.remaining(), 1);
    let e = r.err().unwrap();
    assert!(e.contains("Compilation failed"));
    assert_eq!(e, text);
}

#[test]
fn compiled_suite_runs_through_run_suite() {
    let named_tests = vec![("a".to_string(), expect_success(false))];
    let mut backend = ScriptedBackend::new(vec![success()]);
    let summary = run_suite(Ok(named_tests), &mut backend, &config()).unwrap();
    assert_eq!(summary.passed().len(), 1);
}

#[test]
fn test_responses_carry_notes_or_fault() {
    let mut backend = ScriptedBackend::new(vec![]);
    let summary = run_tests_with(vec![], &mut backend, &config()).unwrap();
    let ok = test_response_of(Ok(summary));
    assert!(ok.success);
    assert_eq!(ok.message, "running 0 tests");
    let err = test_response_of(Err("fault".to_string()));
    assert!(!err.success);
    assert_eq!(err.message, "fault");
}
