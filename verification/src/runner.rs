use vstd::prelude::*;
use vstd::string::StringExecFns;

use cairo_lang_sierra::program::Program;
use cairo_lang_starknet::contract::ContractInfo;
use cairo_lang_utils::ordered_hash_map::OrderedHashMap;
use starknet_types_core::felt::Felt as Felt252;

use crate::format::append_memory;
use crate::format::format_panic_values;
use crate::format::render_values;
use crate::outcome::RunOutcome;
use crate::outcome::RunResultValue;
use crate::sierra::BackendFault;
use crate::sierra::SierraBackend;
use crate::sierra::function_names;
use crate::sierra::program_fn_names;
use crate::sierra::spec_missing_fn_msg;
use crate::strutil::spec_ends_with;
use crate::strutil::str_ends_with;

verus! {

/// How many of the names end with the suffix.
pub open spec fn spec_match_count(names: Seq<Seq<char>>, suffix: Seq<char>) -> nat
    decreases names.len(),
{
    if names.len() == 0 {
        0
    } else {
        spec_match_count(names.drop_last(), suffix) + if spec_ends_with(names.last(), suffix) {
            1nat
        } else {
            0nat
        }
    }
}

/// The text of the fault for an ambiguous entry point.
pub open spec fn spec_ambiguous_fn_msg(suffix: Seq<char>) -> Seq<char> {
    "More than one function with suffix `"@ + suffix + "` to run found."@
}

/// Locates the unique name that ends with the suffix. Zero matches is the
/// missing-function fault; more than one is the ambiguity fault, never a
/// silent choice.
#[verifier::loop_isolation(false)]
pub fn find_entry_point(names: &Vec<String>, suffix: &str) -> (r: Result<usize, String>)
    ensures
        r is Ok ==> r->Ok_0 < names@.len() && spec_ends_with(
            names.deep_view()[r->Ok_0 as int],
            suffix@,
        ) && spec_match_count(names.deep_view(), suffix@) == 1,
        spec_match_count(names.deep_view(), suffix@) == 0 ==> r is Err && r->Err_0@
            == spec_missing_fn_msg(suffix@),
        spec_match_count(names.deep_view(), suffix@) >= 2 ==> r is Err && r->Err_0@
            == spec_ambiguous_fn_msg(suffix@),
        spec_match_count(names.deep_view(), suffix@) == 1 ==> r is Ok,
{
    let ghost nv = names.deep_view();
    let mut count: usize = 0;
    let mut found: usize = 0;
    let mut i: usize = 0;
    proof {
        assert(nv.subrange(0, 0) =~= Seq::<Seq<char>>::empty());
    }
    while i < names.len()
        invariant
            i <= names@.len(),
            count as nat == spec_match_count(nv.subrange(0, i as int), suffix@),
            count >= 1 ==> (found < i && spec_ends_with(nv[found as int], suffix@)),
            count as nat <= i as nat,
        decreases names@.len() - i,
    {
        proof {
            let pre = nv.subrange(0, i as int);
            let post = nv.subrange(0, i + 1);
            assert(post.drop_last() =~= pre);
            assert(post.last() == nv[i as int]);
            assert(nv[i as int] == names@[i as int]@);
        }
        if str_ends_with(names[i].as_str(), suffix) {
            found = i;
            count = count + 1;
        }
        i = i + 1;
    }
    proof {
        assert(nv.subrange(0, names@.len() as int) =~= nv);
    }
    if count == 0 {
        let mut msg = String::from_str("Function with suffix `");
        msg.append(suffix);
        msg.append("` to run not found.");
        Err(msg)
    } else if count > 1 {
        let mut msg = String::from_str("More than one function with suffix `");
        msg.append(suffix);
        msg.append("` to run found.");
        Err(msg)
    } else {
        Ok(found)
    }
}

/// The one-shot display text of a run's result value: the returned values
/// after the success line, or the formatted panic payload after the panic
/// line.
pub open spec fn spec_outcome_text(value: RunResultValue) -> Seq<char> {
    match value {
        RunResultValue::Success(vs) => "Run completed successfully, returning "@
            + crate::format::spec_render_values(crate::felt::felts_view(vs@)) + "\n"@,
        RunResultValue::Panic(vs) => "Run panicked with "@ + crate::format::spec_format_values(
            crate::felt::felts_view(vs@),
        ) + ".\n"@,
    }
}

/// The whole output of a one-shot run for one observed outcome: the outcome
/// text, and the full memory dump exactly when it was asked for.
pub open spec fn spec_run_output(o: RunOutcome, memory_output: bool) -> Seq<char> {
    spec_outcome_text(o.value) + if memory_output {
        "Full memory: ["@ + crate::format::spec_memory_cells(o.memory.deep_view()) + "]"@
    } else {
        Seq::<char>::empty()
    }
}

/// Renders the one-shot display text of a run's result value.
pub fn render_outcome_text(value: &RunResultValue) -> (r: String)
    ensures
        r@ == spec_outcome_text(*value),
{
    let mut output = String::new();
    match value {
        RunResultValue::Success(values) => {
            output.append("Run completed successfully, returning ");
            let rendered = render_values(values);
            output.append(rendered.as_str());
            output.append("\n");
            proof {
                assert(output@ =~= "Run completed successfully, returning "@
                    + crate::format::spec_render_values(crate::felt::felts_view(values@)) + "\n"@);
            }
        },
        RunResultValue::Panic(values) => {
            output.append("Run panicked with ");
            let rendered = format_panic_values(values);
            output.append(rendered.as_str());
            output.append(".\n");
            proof {
                assert(output@ =~= "Run panicked with "@ + crate::format::spec_format_values(
                    crate::felt::felts_view(values@),
                ) + ".\n"@);
            }
        },
    }
    output
}

/// Locates and runs the program's entry point: the unique function whose
/// qualified name ends in `::main`, run with no arguments and no gas cap.
/// A successful run reports the returned values; a panicking run reports its
/// formatted payload; a program without a unique entry point, or a backend
/// that cannot run it, is a fault.
pub fn run_program(
    sierra_program: &Program,
    contracts_info: OrderedHashMap<Felt252, ContractInfo>,
    memory_output: bool,
) -> (r: Result<String, String>)
    ensures
        spec_match_count(program_fn_names(*sierra_program), "::main"@) == 0 ==> r is Err
            && r->Err_0@ == spec_missing_fn_msg("::main"@),
        spec_match_count(program_fn_names(*sierra_program), "::main"@) >= 2 ==> r is Err
            && r->Err_0@ == spec_ambiguous_fn_msg("::main"@),
        r is Ok ==> spec_match_count(program_fn_names(*sierra_program), "::main"@) == 1,
        r is Ok ==> ("Run completed successfully, returning "@.is_prefix_of(r->Ok_0@)
            || "Run panicked with "@.is_prefix_of(r->Ok_0@)),
        r is Ok ==> exists|o: RunOutcome|
            o.wf() && r->Ok_0@ == #[trigger] spec_run_output(o, memory_output),
        r is Err ==> (r->Err_0@ == spec_missing_fn_msg("::main"@) || r->Err_0@
            == spec_ambiguous_fn_msg("::main"@) || r->Err_0@ == "Failed to create Sierra runner."@
            || r->Err_0@ == "Failed to run the function."@ || exists|i: int|
            0 <= i < program_fn_names(*sierra_program).len() && r->Err_0@
                == #[trigger] spec_missing_fn_msg(program_fn_names(*sierra_program)[i])),
{
    let names = function_names(sierra_program);
    let entry = match find_entry_point(&names, "::main") {
        Ok(i) => i,
        Err(e) => {
            return Err(e);
        },
    };
    let mut backend = match SierraBackend::build(sierra_program, contracts_info, false) {
        Ok(b) => b,
        Err(_e) => {
            return Err(String::from_str("Failed to create Sierra runner."));
        },
    };
    let outcome = match backend.run_by_suffix(names[entry].as_str()) {
        Ok(o) => o,
        Err(BackendFault::FunctionNotFound(m)) => {
            proof {
                assert(names@[entry as int]@ == program_fn_names(*sierra_program)[entry as int]);
                assert(m@ == spec_missing_fn_msg(
                    program_fn_names(*sierra_program)[entry as int],
                ));
            }
            return Err(m);
        },
        Err(BackendFault::RunFailed(_e)) => {
            return Err(String::from_str("Failed to run the function."));
        },
    };
    let mut output = render_outcome_text(&outcome.value);
    if memory_output {
        append_memory(&mut output, &outcome.memory);
    }
    proof {
        assert(output@ =~= spec_run_output(outcome, memory_output));
        assert("Run completed successfully, returning "@.is_prefix_of(output@)
            || "Run panicked with "@.is_prefix_of(output@)) by {
            match outcome.value {
                RunResultValue::Success(_) => {
                    assert(output@.subrange(
                        0,
                        "Run completed successfully, returning "@.len() as int,
                    ) =~= "Run completed successfully, returning "@);
                },
                RunResultValue::Panic(_) => {
                    assert(output@.subrange(0, "Run panicked with "@.len() as int)
                        =~= "Run panicked with "@);
                },
            }
        }
    }
    Ok(output)
}

} // verus!
