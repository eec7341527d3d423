use vstd::prelude::*;
use vstd::string::StringExecFns;

use crate::test_runner::TestsSummary;

verus! {

/// A request to run a program's entry point.
pub struct RunRequest {
    pub cairo_code: String,
}

/// A request to run a program's entry point, as the code-run endpoint
/// phrases it.
pub struct CodeRunRequest {
    pub cairo_code: String,
}

/// A request to run a program's test suite.
pub struct TestRequest {
    pub cairo_code: String,
}

/// A combined request: source text, and whether the test suite rather than
/// the entry point should run.
pub struct CairoRunRequest {
    pub code: String,
    pub test: Option<bool>,
}

/// The answer to a run request: display text and whether the run succeeded.
pub struct RunResponse {
    pub message: String,
    pub success: bool,
}

/// The answer to a test-suite request.
pub struct TestResponse {
    pub message: String,
    pub success: bool,
}

/// The answer to a combined request.
pub struct CairoRunResponse {
    pub message: String,
    pub success: bool,
}

/// What a compile request asks for.
pub enum CompilationMode {
    Compile,
    Test,
}

/// A bare compilation request.
pub struct CompileRequest {
    pub cairo_code: String,
    pub mode: Option<CompilationMode>,
    pub starknet: Option<bool>,
}

/// The answer to a bare compilation request.
pub struct CompileResponse {
    pub message: String,
    pub success: bool,
}

/// Which operation a combined request asks for: the test suite only when the
/// flag is present and set.
pub enum RunMode {
    Main,
    Tests,
}

/// Decides the operation of a combined request.
pub fn requested_mode(req: &CairoRunRequest) -> (r: RunMode)
    ensures
        (r is Tests) <==> req.test == Some(true),
{
    match req.test {
        Some(true) => RunMode::Tests,
        _ => RunMode::Main,
    }
}

/// Shapes a run outcome into a response: the text of either arm, succeeded
/// only when the run did.
pub fn run_response_of(outcome: Result<String, String>) -> (r: RunResponse)
    ensures
        outcome is Ok ==> r.message == outcome->Ok_0 && r.success,
        outcome is Err ==> r.message == outcome->Err_0 && !r.success,
{
    match outcome {
        Ok(message) => RunResponse { message, success: true },
        Err(message) => RunResponse { message, success: false },
    }
}

/// Shapes a run outcome into a combined response: the text of either arm,
/// succeeded only when the run did.
pub fn cairo_run_response_of(outcome: Result<String, String>) -> (r: CairoRunResponse)
    ensures
        outcome is Ok ==> r.message == outcome->Ok_0 && r.success,
        outcome is Err ==> r.message == outcome->Err_0 && !r.success,
{
    match outcome {
        Ok(message) => CairoRunResponse { message, success: true },
        Err(message) => CairoRunResponse { message, success: false },
    }
}

/// Shapes a suite outcome into a response: the summary's log on success,
/// the fault's text otherwise.
pub fn test_response_of(outcome: Result<TestsSummary, String>) -> (r: TestResponse)
    ensures
        outcome is Ok ==> r.message@ == outcome->Ok_0@.notes && r.success,
        outcome is Err ==> r.message@ == outcome->Err_0@ && !r.success,
{
    match outcome {
        Ok(summary) => TestResponse {
            message: String::from_str(summary.notes()),
            success: true,
        },
        Err(message) => TestResponse { message, success: false },
    }
}

/// Shapes a suite outcome into a combined response: the summary's log on
/// success, the fault's text otherwise.
pub fn cairo_test_response_of(outcome: Result<TestsSummary, String>) -> (r: CairoRunResponse)
    ensures
        outcome is Ok ==> r.message@ == outcome->Ok_0@.notes && r.success,
        outcome is Err ==> r.message@ == outcome->Err_0@ && !r.success,
{
    match outcome {
        Ok(summary) => CairoRunResponse {
            message: String::from_str(summary.notes()),
            success: true,
        },
        Err(message) => CairoRunResponse { message, success: false },
    }
}

/// The fixed acknowledgement of the bare compilation endpoint.
pub fn compile_received_response() -> (r: CompileResponse)
    ensures
        r.message@ == "Cairo code received for compilation"@,
        r.success,
{
    CompileResponse {
        message: String::from_str("Cairo code received for compilation"),
        success: true,
    }
}

} // verus!
