use cairo_lang_sierra::ProgramParser;
use cairo_lang_sierra::program::Program;
use cairo_lang_utils::ordered_hash_map::OrderedHashMap;

use cairo_runners::api::CairoRunRequest;
use cairo_runners::api::RunMode;
use cairo_runners::api::cairo_run_response_of;
use cairo_runners::api::compile_received_response;
use cairo_runners::api::requested_mode;
use cairo_runners::api::run_response_of;
use cairo_runners::felt::Felt;
use cairo_runners::outcome::RunResultValue;
use cairo_runners::outcome::TestConfig;
use cairo_runners::outcome::TestExpectation;
use cairo_runners::outcome::TestRunConfig;
use cairo_runners::project::ProjectPlan;
use cairo_runners::project::module_wrapper_decl;
use cairo_runners::project::plan_single_file_project;
use cairo_runners::runner::find_entry_point;
use cairo_runners::runner::render_outcome_text;
use cairo_runners::runner::run_program;
use cairo_runners::sierra::function_names;
use cairo_runners::test_runner::run_tests;

fn parse(text: &str) -> Program {
    ProgramParser::new().parse(text).unwrap()
}

const RETURNS_LITERAL: &str = "
type felt252 = felt252;

libfunc felt252_const<37> = felt252_const<37>;
libfunc store_temp_felt252 = store_temp<felt252>;

felt252_const<37>() -> ([0]);
store_temp_felt252([0]) -> ([0]);
return([0]);

lib::main@0() -> (felt252);
";

const TWO_MAINS: &str = "
type felt252 = felt252;

libfunc felt252_const<1> = felt252_const<1>;
libfunc store_temp_felt252 = store_temp<felt252>;

felt252_const<1>() -> ([0]);
store_temp_felt252([0]) -> ([0]);
return([0]);
felt252_const<1>() -> ([1]);
store_temp_felt252([1]) -> ([1]);
return([1]);

lib::main@0() -> (felt252);
other::main@3() -> (felt252);
";

#[test]
fn program_without_entry_point_reports_the_fixed_message() {
    let program = parse("");
    let r = run_program(&program, OrderedHashMap::default(), false);
    assert_eq!(
        r.err().unwrap(),
        "Function with suffix `::main` to run not found."
    );
}

#[test]
fn program_with_literal_entry_point_runs_to_completion() {
    let program = parse(RETURNS_LITERAL);
    let out = run_program(&program, OrderedHashMap::default(), false).unwrap();
    assert!(out.contains("Run completed successfully, returning"));
    assert!(out.contains("0x25"));
}

#[test]
fn ambiguous_entry_point_is_a_fault_not_a_choice() {
    let program = parse(TWO_MAINS);
    let r = run_program(&program, OrderedHashMap::default(), false);
    assert_eq!(
        r.err().unwrap(),
        "More than one function with suffix `::main` to run found."
    );
}

#[test]
fn memory_dump_lists_cells_when_asked_for() {
    let program = parse(RETURNS_LITERAL);
    let out = run_program(&program, OrderedHashMap::default(), true).unwrap();
    assert!(out.contains("Full memory: ["));
    assert!(out.ends_with("]"));
}

#[test]
fn function_names_reads_the_program_table() {
    let program = parse(TWO_MAINS);
    let names = function_names(&program);
    assert_eq!(names, vec!["lib::main".to_string(), "other::main".to_string()]);
}

#[test]
fn entry_point_locator_picks_the_unique_match() {
    let names = vec!["lib::other".to_string(), "lib::main".to_string()];
    assert_eq!(find_entry_point(&names, "::main").unwrap(), 1);
    let none: Vec<String> = vec!["lib::other".to_string()];
    assert_eq!(
        find_entry_point(&none, "::main").err().unwrap(),
        "Function with suffix `::main` to run not found."
    );
    let both = vec!["lib::main".to_string(), "other::main".to_string()];
    assert_eq!(
        find_entry_point(&both, "::main").err().unwrap(),
        "More than one function with suffix `::main` to run found."
    );
}

#[test]
fn suite_against_the_real_backend() {
    let program = parse(RETURNS_LITERAL);
    let named_tests = vec![(
        "lib::main".to_string(),
        TestConfig { available_gas: None, expectation: TestExpectation::Success, ignored: false },
    )];
    let summary = run_tests(
        named_tests,
        program,
        OrderedHashMap::default(),
        &TestRunConfig { include_ignored: false },
    )
    .unwrap();
    assert!(summary.notes().contains("running 1 test"));
    assert!(summary.notes().contains("test lib::main ... ok"));
    assert_eq!(summary.passed().len(), 1);
    assert!(summary.failed().is_empty());
}

#[test]
fn suite_with_an_unresolvable_test_name_is_a_fault() {
    let program = parse(RETURNS_LITERAL);
    let named_tests = vec![(
        "lib::missing".to_string(),
        TestConfig { available_gas: None, expectation: TestExpectation::Success, ignored: false },
    )];
    let r = run_tests(
        named_tests,
        program,
        OrderedHashMap::default(),
        &TestRunConfig { include_ignored: false },
    );
    assert_eq!(
        r.err().unwrap(),
        "Function with suffix `lib::missing` to run not found."
    );
}

#[test]
fn rendered_panic_line_quotes_short_strings() {
    let value = RunResultValue::Panic(vec![Felt::from_low_bytes(
        b"good_error_has_occurred".to_vec(),
    )]);
    let out = render_outcome_text(&value);
    assert_eq!(out, "Run panicked with ['good_error_has_occurred'].\n");
}

#[test]
fn rendered_success_line_shows_values() {
    let value = RunResultValue::Success(vec![Felt::from_low_bytes(vec![0x25])]);
    let out = render_outcome_text(&value);
    assert_eq!(out, "Run completed successfully, returning [0x25]\n");
}

#[test]
fn combined_request_mode_decision() {
    let req = CairoRunRequest { code: "x".to_string(), test: Some(true) };
    assert!(matches!(requested_mode(&req), RunMode::Tests));
    let req = CairoRunRequest { code: "x".to_string(), test: Some(false) };
    assert!(matches!(requested_mode(&req), RunMode::Main));
    let req = CairoRunRequest { code: "x".to_string(), test: None };
    assert!(matches!(requested_mode(&req), RunMode::Main));
}

#[test]
fn responses_carry_the_outcome_text() {
    let ok = run_response_of(Ok("done".to_string()));
    assert!(ok.success);
    assert_eq!(ok.message, "done");
    let err = run_response_of(Err("broken".to_string()));
    assert!(!err.success);
    assert_eq!(err.message, "broken");
    let c = cairo_run_response_of(Err("nope".to_string()));
    assert!(!c.success);
    let fixed = compile_received_response();
    assert!(fixed.success);
    assert_eq!(fixed.message, "Cairo code received for compilation");
}

#[test]
fn single_file_project_plans() {
    assert!(matches!(
        plan_single_file_project(Some("rs"), true, Some("lib")),
        ProjectPlan::BadExtension
    ));
    assert!(matches!(
        plan_single_file_project(None, true, Some("lib")),
        ProjectPlan::BadExtension
    ));
    assert!(matches!(
        plan_single_file_project(Some("cairo"), false, Some("lib")),
        ProjectPlan::NoSuchFile
    ));
    assert!(matches!(
        plan_single_file_project(Some("cairo"), true, None),
        ProjectPlan::BadPath
    ));
    assert!(matches!(
        plan_single_file_project(Some("cairo"), true, Some("lib")),
        ProjectPlan::LibRoot
    ));
    assert!(matches!(
        plan_single_file_project(Some("cairo"), true, Some("fib")),
        ProjectPlan::WrappedModule
    ));
    assert_eq!(module_wrapper_decl("fib"), "mod fib;");
}
