use vstd::prelude::*;
use vstd::string::StringExecFns;

use cairo_lang_runner::SierraCasmRunner;
use cairo_lang_runner::StarknetState;
use cairo_lang_sierra::program::Program;
use cairo_lang_sierra_to_casm::metadata::MetadataComputationConfig;
use cairo_lang_starknet::contract::ContractInfo;
use cairo_lang_utils::ordered_hash_map::OrderedHashMap;
use starknet_types_core::felt::Felt as Felt252;

use crate::backend::ExecutionBackend;
use crate::outcome::RunOutcome;
use crate::outcome::RunResultValue;

verus! {

// The backend's own types, declared so that values of them can be carried
// through signatures and fields. They are opaque: everything the logic reads
// of them comes through the wrappers below.
#[verifier::external_type_specification]
#[verifier::external_body]
pub struct ExProgram(Program);

#[verifier::external_type_specification]
#[verifier::external_body]
pub struct ExFelt252(Felt252);

#[verifier::external_type_specification]
#[verifier::external_body]
pub struct ExContractInfo(ContractInfo);

#[verifier::external_type_specification]
#[verifier::external_body]
#[verifier::reject_recursive_types(Key)]
#[verifier::reject_recursive_types(Value)]
#[verifier::reject_recursive_types(BH)]
pub struct ExOrderedHashMap<Key, Value, BH>(OrderedHashMap<Key, Value, BH>);

#[verifier::external_type_specification]
#[verifier::external_body]
pub struct ExSierraCasmRunner(SierraCasmRunner);

#[verifier::external_type_specification]
#[verifier::external_body]
pub struct ExRunResultStarknet(cairo_lang_runner::RunResultStarknet);

/// Why the backend could not carry a run to completion: the named function
/// is not in the program, or the run itself could not be performed.
pub enum BackendFault {
    FunctionNotFound(String),
    RunFailed(String),
}

/// The qualified name of each function of a compiled program, in declaration
/// order; an empty name stands for a function that carries none.
pub uninterp spec fn program_fn_names(p: Program) -> Seq<Seq<char>>;

/// Relies on the program's own function table: hands out one name per
/// function, in order, reading `id.debug_name` of each.
#[verifier::external_body]
pub fn function_names(p: &Program) -> (r: Vec<String>)
    ensures
        r.deep_view() == program_fn_names(*p),
{
    p.funcs
        .iter()
        .map(|f| match &f.id.debug_name {
            Some(n) => n.to_string(),
            None => String::new(),
        })
        .collect()
}

/// Relies on SierraCasmRunner::new: builds the execution backend for a
/// program, with or without the default gas-metadata computation and with no
/// profiling, or reports why it cannot be built.
#[verifier::external_body]
fn new_runner(
    sierra_program: &Program,
    contracts_info: OrderedHashMap<Felt252, ContractInfo>,
    gas_metadata: bool,
) -> (r: Result<SierraCasmRunner, String>) {
    let metadata = if gas_metadata { Some(MetadataComputationConfig::default()) } else { None };
    SierraCasmRunner::new(sierra_program.clone(), metadata, contracts_info, None).map_err(|e| {
        e.to_string()
    })
}

/// The text of the backend's missing-function error for a suffix.
pub open spec fn spec_missing_fn_msg(suffix: Seq<char>) -> Seq<char> {
    "Function with suffix `"@ + suffix + "` to run not found."@
}

/// Relies on Felt::to_bytes_be: carries one raw backend value over as its
/// 32-byte big-endian representation.
#[verifier::external_body]
fn felt_bytes(f: &Felt252) -> (r: crate::felt::Felt)
    ensures
        r.wf(),
{
    crate::felt::Felt { bytes: f.to_bytes_be().to_vec() }
}

/// Relies on Felt::to_bytes_be: carries a list of raw backend values over,
/// each as its 32-byte big-endian representation.
#[verifier::external_body]
fn felts_of(vs: Vec<Felt252>) -> (r: Vec<crate::felt::Felt>)
    ensures
        crate::felt::felts_wf(r@),
{
    vs.iter().map(felt_bytes).collect()
}

/// Carries a finished run's result over, each raw value as its bytes through
/// `felt_bytes` and `felts_of`.
#[verifier::external_body]
fn convert_run_result(res: cairo_lang_runner::RunResultStarknet) -> (r: RunOutcome)
    ensures
        r.wf(),
{
    let value = match res.value {
        cairo_lang_runner::RunResultValue::Success(vs) => RunResultValue::Success(felts_of(vs)),
        cairo_lang_runner::RunResultValue::Panic(vs) => RunResultValue::Panic(felts_of(vs)),
    };
    let gas_counter = res.gas_counter.as_ref().map(felt_bytes);
    RunOutcome { value, gas_counter, memory: res.memory.iter().map(|c| c.as_ref().map(felt_bytes)).collect() }
}

/// Relies on SierraCasmRunner::find_function and
/// SierraCasmRunner::run_function_with_starknet_context: locates the first
/// function whose qualified name ends with the suffix and runs it to
/// completion with no arguments and a fresh Starknet state. Locating and
/// running stay in one call so that only a function of this runner's own
/// program is ever run. Every raw value of an outcome is one 32-byte
/// big-endian word; the only locate error is the missing-function one, with
/// its fixed text.
#[verifier::external_body]
fn runner_run_by_suffix(
    runner: &SierraCasmRunner,
    name_suffix: &str,
    available_gas: Option<usize>,
) -> (r: Result<RunOutcome, BackendFault>)
    ensures
        r is Ok ==> r->Ok_0.wf(),
        r matches Err(BackendFault::FunctionNotFound(m)) ==> m@ == spec_missing_fn_msg(
            name_suffix@,
        ),
{
    let func = match runner.find_function(name_suffix) {
        Ok(f) => f,
        Err(e) => return Err(BackendFault::FunctionNotFound(e.to_string())),
    };
    let state = StarknetState::default();
    match runner.run_function_with_starknet_context(func, vec![], available_gas, state) {
        Ok(res) => Ok(convert_run_result(res)),
        Err(e) => Err(BackendFault::RunFailed(e.to_string())),
    }
}

/// The text of the fault for a run that the backend could not perform.
pub open spec fn spec_run_fault_msg(name: Seq<char>) -> Seq<char> {
    "Failed to run the function `"@ + name + "`."@
}

/// The real execution backend: a prepared Sierra-to-CASM runner for one
/// compiled program.
pub struct SierraBackend {
    runner: SierraCasmRunner,
    calls_made: Ghost<nat>,
    observed: Ghost<Seq<RunOutcome>>,
}

impl SierraBackend {
    /// Builds the backend for a program, with or without gas metadata, or
    /// reports why the runner cannot be set up.
    pub fn build(
        sierra_program: &Program,
        contracts_info: OrderedHashMap<Felt252, ContractInfo>,
        gas_metadata: bool,
    ) -> (r: Result<SierraBackend, String>)
        ensures
            r is Ok ==> r->Ok_0.calls() == 0 && r->Ok_0.outcomes() == Seq::<RunOutcome>::empty(),
    {
        match new_runner(sierra_program, contracts_info, gas_metadata) {
            Ok(runner) => Ok(
                SierraBackend { runner, calls_made: Ghost(0), observed: Ghost(Seq::empty()) },
            ),
            Err(e) => Err(e),
        }
    }

    /// Locates the function whose qualified name ends with the suffix and
    /// runs it with no arguments and no gas cap.
    pub fn run_by_suffix(&mut self, name_suffix: &str) -> (r: Result<RunOutcome, BackendFault>)
        ensures
            r is Ok ==> r->Ok_0.wf() && final(self).outcomes() == old(self).outcomes().push(
                r->Ok_0,
            ) && final(self).calls() == old(self).calls() + 1,
            r is Err ==> final(self).outcomes() == old(self).outcomes() && final(self).calls()
                <= old(self).calls() + 1,
            r matches Err(BackendFault::FunctionNotFound(m)) ==> m@ == spec_missing_fn_msg(
                name_suffix@,
            ),
    {
        let r = runner_run_by_suffix(&self.runner, name_suffix, None);
        match r {
            Ok(outcome) => {
                proof {
                    self.calls_made@ = self.calls_made@ + 1;
                    self.observed@ = self.observed@.push(outcome);
                }
                Ok(outcome)
            },
            Err(fault) => {
                proof {
                    self.calls_made@ = self.calls_made@ + 1;
                }
                Err(fault)
            },
        }
    }
}

impl ExecutionBackend for SierraBackend {
    closed spec fn calls(&self) -> nat {
        self.calls_made@
    }

    closed spec fn outcomes(&self) -> Seq<RunOutcome> {
        self.observed@
    }

    fn run_test(&mut self, name: &str, available_gas: Option<usize>) -> (r: Result<
        RunOutcome,
        String,
    >)
        ensures
            r is Err ==> r->Err_0@ == spec_missing_fn_msg(name@) || r->Err_0@
                == spec_run_fault_msg(name@),
    {
        let r = runner_run_by_suffix(&self.runner, name, available_gas);
        match r {
            Ok(outcome) => {
                proof {
                    self.calls_made@ = self.calls_made@ + 1;
                    self.observed@ = self.observed@.push(outcome);
                }
                Ok(outcome)
            },
            Err(BackendFault::FunctionNotFound(m)) => Err(m),
            Err(BackendFault::RunFailed(_e)) => {
                proof {
                    self.calls_made@ = self.calls_made@ + 1;
                }
                let mut msg = String::from_str("Failed to run the function `");
                msg.append(name);
                msg.append("`.");
                Err(msg)
            },
        }
    }
}

} // verus!
