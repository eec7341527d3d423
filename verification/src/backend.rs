use vstd::prelude::*;
use vstd::string::StringExecFns;

use crate::outcome::RunOutcome;

verus! {

/// The execution backend the suite runner drives: it runs one function of the
/// compiled program to completion, or reports that it could not run it at
/// all. Nothing is promised of an outcome's content; what is tracked is the
/// bookkeeping of the runs: how many were performed, and the log of the
/// outcomes that came back, so that callers can account for every backend
/// invocation and state their results as a function of what was observed.
pub trait ExecutionBackend {
    /// How many runs this backend has performed.
    spec fn calls(&self) -> nat;

    /// The outcomes of the completed runs, in order.
    spec fn outcomes(&self) -> Seq<RunOutcome>;

    /// Runs the function of the given qualified name with the given gas
    /// budget; absence of a budget means unconstrained.
    fn run_test(&mut self, name: &str, available_gas: Option<usize>) -> (r: Result<
        RunOutcome,
        String,
    >)
        ensures
            final(self).calls() <= old(self).calls() + 1,
            r is Ok ==> final(self).calls() == old(self).calls() + 1,
            r is Ok ==> r->Ok_0.wf(),
            r is Ok ==> final(self).outcomes() == old(self).outcomes().push(r->Ok_0),
            r is Err ==> final(self).outcomes() == old(self).outcomes(),
    ;
}

/// A backend that replays a fixed script of outcomes, one per run, in order.
/// It stands in for the real backend where a test needs to observe exactly
/// how the suite runner drives its backend.
pub struct ScriptedBackend {
    script: Vec<RunOutcome>,
    consumed: usize,
    replayed: Ghost<Seq<RunOutcome>>,
}

impl ScriptedBackend {
    /// The outcomes not yet replayed, in order.
    pub closed spec fn script_view(&self) -> Seq<RunOutcome> {
        self.script@
    }

    /// Builds a backend that will hand the given outcomes out in order.
    pub fn new(script: Vec<RunOutcome>) -> (r: ScriptedBackend)
        ensures
            r.script_view() == script@,
            r.calls() == 0,
            r.outcomes() == Seq::<RunOutcome>::empty(),
    {
        ScriptedBackend { script, consumed: 0, replayed: Ghost(Seq::empty()) }
    }

    /// How many runs were performed, as a runtime observation.
    pub fn runs_made(&self) -> (r: usize)
        ensures
            r as nat == self.calls(),
    {
        self.consumed
    }

    /// How many scripted outcomes are left.
    pub fn remaining(&self) -> (r: usize)
        ensures
            r as nat == self.script_view().len(),
    {
        self.script.len()
    }
}

impl ExecutionBackend for ScriptedBackend {
    closed spec fn calls(&self) -> nat {
        self.consumed as nat
    }

    closed spec fn outcomes(&self) -> Seq<RunOutcome> {
        self.replayed@
    }

    fn run_test(&mut self, name: &str, available_gas: Option<usize>) -> (r: Result<
        RunOutcome,
        String,
    >)
        ensures
            (old(self).script_view().len() > 0 && old(self).script_view()[0].wf()
                && old(self).calls() < usize::MAX) ==> (r is Ok
                && r->Ok_0 == old(self).script_view()[0]
                && final(self).script_view() == old(self).script_view().drop_first()),
            old(self).script_view().len() == 0 ==> (r is Err
                && final(self).script_view() == old(self).script_view()),
    {
        if self.script.len() == 0 || self.consumed == usize::MAX {
            return Err(String::from_str("scripted backend exhausted"));
        }
        if !self.script[0].check_wf() {
            return Err(String::from_str("scripted backend handed a malformed outcome"));
        }
        let outcome = self.script.remove(0);
        self.consumed = self.consumed + 1;
        proof {
            assert(self.script@ =~= old(self).script@.drop_first());
            self.replayed@ = self.replayed@.push(outcome);
        }
        Ok(outcome)
    }
}

} // verus!
