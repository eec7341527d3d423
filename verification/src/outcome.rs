use vstd::prelude::*;

use crate::felt::Felt;
use crate::felt::felts_wf;

verus! {

/// What a finished run of one function returned: its values on success, or
/// the carried payload on a panic.
pub enum RunResultValue {
    Success(Vec<Felt>),
    Panic(Vec<Felt>),
}

impl RunResultValue {
    /// Every carried raw value is well formed.
    pub open spec fn wf(&self) -> bool {
        match self {
            RunResultValue::Success(vs) => felts_wf(vs@),
            RunResultValue::Panic(vs) => felts_wf(vs@),
        }
    }
}

/// The full outcome of one backend run: the result value, the remaining gas
/// counter when the backend reports one, and the raw memory cells.
pub struct RunOutcome {
    pub value: RunResultValue,
    pub gas_counter: Option<Felt>,
    pub memory: Vec<Option<Felt>>,
}

impl RunOutcome {
    /// Every raw value carried by the outcome is well formed.
    pub open spec fn wf(&self) -> bool {
        &&& self.value.wf()
        &&& match self.gas_counter {
            Some(g) => g.wf(),
            None => true,
        }
        &&& forall|i: int|
            0 <= i < self.memory@.len() ==> match #[trigger] self.memory@[i] {
                Some(f) => f.wf(),
                None => true,
            }
    }
}

/// Every value in the vector has the width of one word.
pub fn check_felts_wf(vs: &Vec<Felt>) -> (r: bool)
    ensures
        r == felts_wf(vs@),
{
    let mut i: usize = 0;
    while i < vs.len()
        invariant
            i <= vs@.len(),
            forall|j: int| 0 <= j < i ==> (#[trigger] vs@[j]).wf(),
        decreases vs@.len() - i,
    {
        if vs[i].bytes.len() != crate::felt::FELT_WIDTH {
            assert(!vs@[i as int].wf());
            return false;
        }
        i = i + 1;
    }
    true
}

impl RunResultValue {
    /// Runtime check of `wf`.
    pub fn check_wf(&self) -> (r: bool)
        ensures
            r == self.wf(),
    {
        match self {
            RunResultValue::Success(vs) => check_felts_wf(vs),
            RunResultValue::Panic(vs) => check_felts_wf(vs),
        }
    }
}

impl RunOutcome {
    /// Runtime check of `wf`.
    pub fn check_wf(&self) -> (r: bool)
        ensures
            r == self.wf(),
    {
        if !self.value.check_wf() {
            return false;
        }
        match &self.gas_counter {
            Some(g) => {
                if g.bytes.len() != crate::felt::FELT_WIDTH {
                    return false;
                }
            },
            None => {},
        }
        let mut i: usize = 0;
        while i < self.memory.len()
            invariant
                i <= self.memory@.len(),
                self.value.wf(),
                match self.gas_counter {
                    Some(g) => g.wf(),
                    None => true,
                },
                forall|j: int|
                    0 <= j < i ==> match #[trigger] self.memory@[j] {
                        Some(f) => f.wf(),
                        None => true,
                    },
            decreases self.memory@.len() - i,
        {
            match &self.memory[i] {
                Some(f) => {
                    if f.bytes.len() != crate::felt::FELT_WIDTH {
                        assert(match self.memory@[i as int] {
                            Some(f) => !f.wf(),
                            None => false,
                        });
                        return false;
                    }
                },
                None => {},
            }
            i = i + 1;
        }
        true
    }
}

/// Expectation for the panic payload of a test that is expected to panic.
pub enum PanicExpectation {
    /// Accept any panic payload.
    Any,
    /// Accept only this exact payload.
    Exact(Vec<Felt>),
}

/// Expectation for the result of one test.
pub enum TestExpectation {
    /// The test should return without panicking.
    Success,
    /// The test should panic.
    Panics(PanicExpectation),
}

/// The configuration of a single discovered test.
pub struct TestConfig {
    /// The gas budget the test asked for; absent means unconstrained.
    pub available_gas: Option<usize>,
    /// The expected result of the run.
    pub expectation: TestExpectation,
    /// Whether the test is marked ignored.
    pub ignored: bool,
}

/// The status of one executed test.
pub enum TestStatus {
    Success,
    Fail(RunResultValue),
}

/// The recorded result of one executed test.
pub struct TestResult {
    /// The status of the run.
    pub status: TestStatus,
    /// The gas usage of the run, when the backend reported a counter.
    pub gas_usage: Option<u64>,
}

/// How a whole test run is carried out.
pub struct TestRunConfig {
    /// Whether tests marked ignored are run as well.
    pub include_ignored: bool,
}

} // verus!
