use vstd::prelude::*;
use vstd::string::StringExecFns;

use cairo_lang_sierra::program::Program;
use cairo_lang_starknet::contract::ContractInfo;
use cairo_lang_utils::ordered_hash_map::OrderedHashMap;
use starknet_types_core::felt::Felt as Felt252;

use crate::backend::ExecutionBackend;
use crate::sierra::SierraBackend;
use crate::classify::evaluate_outcome;
use crate::classify::spec_result_of;
use crate::outcome::RunOutcome;
use crate::outcome::RunResultValue;
use crate::outcome::TestConfig;
use crate::outcome::TestResult;
use crate::outcome::TestRunConfig;
use crate::outcome::TestStatus;
use crate::strutil::append_dec;
use crate::strutil::spec_dec;

verus! {

broadcast use vstd::seq_lib::group_to_multiset_ensures, vstd::multiset::group_multiset_axioms;

/// The mathematical content of a test-suite summary.
#[verifier::ext_equal]
pub struct SummaryModel {
    /// Names of the tests that passed, in the order they were folded in.
    pub passed: Seq<Seq<char>>,
    /// Names of the tests that failed, in the order they were folded in.
    pub failed: Seq<Seq<char>>,
    /// The raw result of each failing run, aligned with `failed`.
    pub failed_run_results: Seq<RunResultValue>,
    /// The accumulated log text.
    pub notes: Seq<char>,
}

/// The summary of one test-suite run: which tests passed and failed, the raw
/// outcome of each failure, and the ordered textual log.
pub struct TestsSummary {
    passed: Vec<String>,
    failed: Vec<String>,
    failed_run_results: Vec<RunResultValue>,
    notes: String,
}

impl View for TestsSummary {
    type V = SummaryModel;

    closed spec fn view(&self) -> SummaryModel {
        SummaryModel {
            passed: self.passed.deep_view(),
            failed: self.failed.deep_view(),
            failed_run_results: self.failed_run_results@,
            notes: self.notes@,
        }
    }
}

impl TestsSummary {
    /// The names of the tests that passed.
    pub fn passed(&self) -> (r: &[String])
        ensures
            r.deep_view() == self@.passed,
    {
        self.passed.as_slice()
    }

    /// The names of the tests that failed.
    pub fn failed(&self) -> (r: &[String])
        ensures
            r.deep_view() == self@.failed,
    {
        self.failed.as_slice()
    }

    /// The raw result of each failing run.
    pub fn failed_run_results(&self) -> (r: &[RunResultValue])
        ensures
            r@ == self@.failed_run_results,
    {
        self.failed_run_results.as_slice()
    }

    /// The ordered textual log of the run.
    pub fn notes(&self) -> (r: &str)
        ensures
            r@ == self@.notes,
    {
        self.notes.as_str()
    }
}

/// One log line of the summary: `\ntest <name> ... <status>`, with the gas
/// estimate appended when one was reported.
pub open spec fn spec_log_line(name: Seq<char>, status: Seq<char>, gas: Option<u64>) -> Seq<char> {
    "\ntest "@ + name + " ... "@ + status + match gas {
        None => Seq::<char>::empty(),
        Some(g) => " (gas usage est.: "@ + spec_dec(g as nat) + ")"@,
    }
}

/// Appends one log line to the notes.
fn append_log_line(notes: &mut String, name: &str, status: &str, gas: Option<u64>)
    ensures
        final(notes)@ == old(notes)@ + spec_log_line(name@, status@, gas),
{
    notes.append("\ntest ");
    notes.append(name);
    notes.append(" ... ");
    notes.append(status);
    match gas {
        None => {
            proof {
                assert(notes@ =~= old(notes)@ + spec_log_line(name@, status@, gas));
            }
        },
        Some(g) => {
            notes.append(" (gas usage est.: ");
            append_dec(notes, g);
            notes.append(")");
            proof {
                assert(notes@ =~= old(notes)@ + spec_log_line(name@, status@, gas));
            }
        },
    }
}

/// How one incoming test result reshapes the summary: an ignored test only
/// logs, a passed test joins `passed`, a failed test joins `failed` and its
/// raw outcome is kept.
pub open spec fn spec_update(m: SummaryModel, name: Seq<char>, opt: Option<TestResult>) -> SummaryModel {
    match opt {
        None => SummaryModel { notes: m.notes + spec_log_line(name, "ignored"@, None), ..m },
        Some(tr) => match tr.status {
            TestStatus::Success => SummaryModel {
                passed: m.passed.push(name),
                notes: m.notes + spec_log_line(name, "ok"@, tr.gas_usage),
                ..m
            },
            TestStatus::Fail(v) => SummaryModel {
                failed: m.failed.push(name),
                failed_run_results: m.failed_run_results.push(v),
                notes: m.notes + spec_log_line(name, "fail"@, tr.gas_usage),
                ..m
            },
        },
    }
}

/// Folds one test result into the summary accumulator. A poisoned accumulator
/// stays as it is; a faulted result poisons it; otherwise the summary is
/// updated as `spec_update` says.
pub fn update_summary(
    wrapped_summary: Result<TestsSummary, String>,
    test_result: Result<(String, Option<TestResult>), String>,
) -> (r: Result<TestsSummary, String>)
    ensures
        wrapped_summary is Err ==> r == wrapped_summary,
        wrapped_summary is Ok && test_result is Err ==> r == Err::<TestsSummary, String>(
            test_result->Err_0,
        ),
        wrapped_summary is Ok && test_result is Ok ==> r is Ok && r->Ok_0@ == spec_update(
            wrapped_summary->Ok_0@,
            test_result->Ok_0.0@,
            test_result->Ok_0.1,
        ),
{
    let mut summary = match wrapped_summary {
        Err(e) => {
            return Err(e);
        },
        Ok(s) => s,
    };
    let (name, opt_result) = match test_result {
        Ok(p) => p,
        Err(e) => {
            return Err(e);
        },
    };
    let ghost m = summary@;
    let ghost n = name@;
    let ghost o = opt_result;
    match opt_result {
        None => {
            append_log_line(&mut summary.notes, name.as_str(), "ignored", None);
            proof {
                assert(summary@ =~= spec_update(m, n, o));
            }
        },
        Some(tr) => match tr.status {
            TestStatus::Success => {
                append_log_line(&mut summary.notes, name.as_str(), "ok", tr.gas_usage);
                summary.passed.push(name);
                proof {
                    assert(summary.passed.deep_view() =~= m.passed.push(n));
                    assert(summary@ =~= spec_update(m, n, o));
                }
            },
            TestStatus::Fail(v) => {
                append_log_line(&mut summary.notes, name.as_str(), "fail", tr.gas_usage);
                summary.failed.push(name);
                summary.failed_run_results.push(v);
                proof {
                    assert(summary.failed.deep_view() =~= m.failed.push(n));
                    assert(summary@ =~= spec_update(m, n, o));
                }
            },
        },
    }
    Ok(summary)
}

/// A discovered test is skipped, not run, when it is marked ignored and
/// ignored tests were not asked for.
pub open spec fn spec_skipped(t: (String, TestConfig), include_ignored: bool) -> bool {
    t.1.ignored && !include_ignored
}

/// How many of the discovered tests are actually run.
pub open spec fn spec_executed_count(
    tests: Seq<(String, TestConfig)>,
    include_ignored: bool,
) -> nat
    decreases tests.len(),
{
    if tests.len() == 0 {
        0
    } else {
        spec_executed_count(tests.drop_last(), include_ignored) + if spec_skipped(
            tests.last(),
            include_ignored,
        ) {
            0nat
        } else {
            1nat
        }
    }
}

/// How many of the discovered tests are skipped.
pub open spec fn spec_skipped_count(tests: Seq<(String, TestConfig)>, include_ignored: bool) -> nat
    decreases tests.len(),
{
    if tests.len() == 0 {
        0
    } else {
        spec_skipped_count(tests.drop_last(), include_ignored) + if spec_skipped(
            tests.last(),
            include_ignored,
        ) {
            1nat
        } else {
            0nat
        }
    }
}

/// The names of the tests that are actually run, in discovery order.
pub open spec fn spec_executed_names(
    tests: Seq<(String, TestConfig)>,
    include_ignored: bool,
) -> Seq<Seq<char>>
    decreases tests.len(),
{
    if tests.len() == 0 {
        Seq::empty()
    } else {
        spec_executed_names(tests.drop_last(), include_ignored) + if spec_skipped(
            tests.last(),
            include_ignored,
        ) {
            Seq::empty()
        } else {
            seq![tests.last().0@]
        }
    }
}

/// Executed and skipped tests together account for every discovered test.
pub proof fn lemma_executed_skipped_total(tests: Seq<(String, TestConfig)>, include_ignored: bool)
    ensures
        spec_executed_count(tests, include_ignored) + spec_skipped_count(tests, include_ignored)
            == tests.len(),
    decreases tests.len(),
{
    if tests.len() > 0 {
        lemma_executed_skipped_total(tests.drop_last(), include_ignored);
    }
}

/// The header note of a suite run: `running <n> test(s)`.
pub open spec fn spec_header(n: nat) -> Seq<char> {
    "running "@ + spec_dec(n) + " test"@ + if n == 1 {
        Seq::<char>::empty()
    } else {
        seq!['s']
    }
}

/// The summary a suite run starts from: empty lists, and the header note for
/// the total count of discovered tests.
pub open spec fn spec_initial_summary(total: nat) -> SummaryModel {
    SummaryModel {
        passed: Seq::empty(),
        failed: Seq::empty(),
        failed_run_results: Seq::empty(),
        notes: spec_header(total),
    }
}

/// The whole suite summary as a fold, in discovery order, over the observed
/// outcomes: a skipped test folds in as ignored; an executed test consumes
/// the next outcome and folds in its recorded result. This fixes, given the
/// outcomes the backend observed, every field of the summary: which set each
/// name joins, the kept failing outcomes, and the exact log text.
pub open spec fn spec_suite_from(
    m: SummaryModel,
    tests: Seq<(String, TestConfig)>,
    outs: Seq<RunOutcome>,
    include_ignored: bool,
) -> SummaryModel
    decreases tests.len(),
{
    if tests.len() == 0 {
        m
    } else {
        let prev = spec_suite_from(m, tests.drop_last(), outs, include_ignored);
        let t = tests.last();
        if spec_skipped(t, include_ignored) {
            spec_update(prev, t.0@, None)
        } else {
            spec_update(
                prev,
                t.0@,
                Some(
                    spec_result_of(
                        t.1.expectation,
                        outs[spec_executed_count(tests.drop_last(), include_ignored) as int],
                    ),
                ),
            )
        }
    }
}

/// The fold reads only the outcomes of the tests it executes: two outcome
/// sequences that agree there fold alike.
pub proof fn lemma_suite_from_outs_agree(
    m: SummaryModel,
    tests: Seq<(String, TestConfig)>,
    outs1: Seq<RunOutcome>,
    outs2: Seq<RunOutcome>,
    include_ignored: bool,
)
    requires
        forall|i: int|
            0 <= i < spec_executed_count(tests, include_ignored) ==> outs1[i] == outs2[i],
    ensures
        spec_suite_from(m, tests, outs1, include_ignored) == spec_suite_from(
            m,
            tests,
            outs2,
            include_ignored,
        ),
    decreases tests.len(),
{
    if tests.len() > 0 {
        lemma_suite_from_outs_agree(m, tests.drop_last(), outs1, outs2, include_ignored);
    }
}

/// Runs a single test against the backend and returns its name and result.
/// A skipped test never reaches the backend; every other test costs exactly
/// one backend run when it completes, and its result is `spec_result_of` of
/// the outcome the backend just logged.
pub fn run_single_test<B: ExecutionBackend>(
    test: TestConfig,
    name: String,
    backend: &mut B,
    include_ignored: bool,
) -> (r: Result<(String, Option<TestResult>), String>)
    ensures
        test.ignored && !include_ignored ==> (r is Ok && r->Ok_0.0@ == name@ && r->Ok_0.1 is None
            && final(backend).calls() == old(backend).calls() && final(backend).outcomes() == old(
            backend,
        ).outcomes()),
        !(test.ignored && !include_ignored) ==> final(backend).calls() <= old(backend).calls() + 1,
        (!(test.ignored && !include_ignored) && r is Ok) ==> (final(backend).calls() == old(
            backend,
        ).calls() + 1 && r->Ok_0.0@ == name@ && final(backend).outcomes().len() == old(
            backend,
        ).outcomes().len() + 1 && final(backend).outcomes().drop_last() == old(backend).outcomes()
            && r->Ok_0.1 == Some(
            spec_result_of(test.expectation, final(backend).outcomes().last()),
        )),
        r is Err ==> final(backend).outcomes() == old(backend).outcomes(),
{
    if test.ignored && !include_ignored {
        return Ok((name, None));
    }
    let outcome = match backend.run_test(name.as_str(), test.available_gas) {
        Ok(o) => o,
        Err(e) => {
            return Err(e);
        },
    };
    let ghost observed = outcome;
    proof {
        assert(backend.outcomes().last() == observed);
        assert(backend.outcomes().drop_last() =~= old(backend).outcomes());
    }
    let result = evaluate_outcome(&test.expectation, outcome);
    proof {
        assert(result == spec_result_of(test.expectation, observed));
    }
    Ok((name, Some(result)))
}

/// Runs the tests and processes the results for a summary.
///
/// The log opens with `running <n> test(s)`. Each discovered test gets
/// exactly one status: passed and failed names together with the skipped
/// tests account for the whole suite, and one raw outcome is kept per
/// failure. Skipped tests never reach the backend; every executed test costs
/// exactly one backend run. The first backend fault poisons the run and is
/// returned instead of a summary; a suite with nothing to execute cannot
/// fault, so it is owed its summary. On success the whole summary equals the
/// fold of the suite, in discovery order, over the outcomes the backend
/// observed during this run.
#[verifier::loop_isolation(false)]
pub fn run_tests_with<B: ExecutionBackend>(
    named_tests: Vec<(String, TestConfig)>,
    backend: &mut B,
    config: &TestRunConfig,
) -> (r: Result<TestsSummary, String>)
    ensures
        final(backend).calls() <= old(backend).calls() + spec_executed_count(
            named_tests@,
            config.include_ignored,
        ),
        r is Ok ==> final(backend).calls() == old(backend).calls() + spec_executed_count(
            named_tests@,
            config.include_ignored,
        ),
        r is Ok ==> r->Ok_0@.passed.len() + r->Ok_0@.failed.len() + spec_skipped_count(
            named_tests@,
            config.include_ignored,
        ) == named_tests@.len(),
        r is Ok ==> r->Ok_0@.failed.len() == r->Ok_0@.failed_run_results.len(),
        r is Ok ==> spec_header(named_tests@.len()).is_prefix_of(r->Ok_0@.notes),
        r is Ok ==> r->Ok_0@.passed.to_multiset().add(r->Ok_0@.failed.to_multiset())
            == spec_executed_names(named_tests@, config.include_ignored).to_multiset(),
        spec_executed_count(named_tests@, config.include_ignored) == 0 ==> r is Ok,
        r is Ok ==> final(backend).outcomes().len() == old(backend).outcomes().len()
            + spec_executed_count(named_tests@, config.include_ignored),
        r is Ok ==> r->Ok_0@ == spec_suite_from(
            spec_initial_summary(named_tests@.len()),
            named_tests@,
            final(backend).outcomes().skip(old(backend).outcomes().len() as int),
            config.include_ignored,
        ),
{
    let ghost all = named_tests@;
    let ghost c0 = backend.calls();
    let ghost out0 = backend.outcomes();
    let ghost mut consumed: Seq<RunOutcome> = Seq::empty();
    let ghost inc = config.include_ignored;
    let total = named_tests.len();
    let mut notes = String::from_str("running ");
    append_dec(&mut notes, total as u64);
    notes.append(" test");
    if total != 1 {
        notes.append("s");
        proof {
            reveal_strlit("s");
            assert(notes@ =~= spec_header(all.len()));
        }
    } else {
        proof {
            assert(notes@ =~= spec_header(all.len()));
        }
    }
    let mut acc: Result<TestsSummary, String> = Ok(
        TestsSummary {
            passed: Vec::new(),
            failed: Vec::new(),
            failed_run_results: Vec::new(),
            notes,
        },
    );
    proof {
        let m = acc->Ok_0@;
        assert(m.passed =~= Seq::<Seq<char>>::empty());
        assert(m.failed =~= Seq::<Seq<char>>::empty());
        assert(m.failed_run_results =~= Seq::<RunResultValue>::empty());
        assert(spec_executed_count(all.subrange(0, 0), inc) == 0);
        assert(spec_skipped_count(all.subrange(0, 0), inc) == 0);
        assert(spec_header(all.len()).is_prefix_of(m.notes));
        assert(m.passed.to_multiset().add(m.failed.to_multiset()) =~= spec_executed_names(
            all.subrange(0, 0),
            inc,
        ).to_multiset());
        assert(m =~= spec_initial_summary(all.len()));
        assert(spec_suite_from(spec_initial_summary(all.len()), all.subrange(0, 0), consumed, inc)
            == spec_initial_summary(all.len()));
        assert(backend.outcomes() =~= out0 + consumed);
    }
    let mut tests = named_tests;
    proof {
        assert(tests@ =~= all.subrange(all.len() - tests@.len(), all.len() as int));
    }
    while tests.len() > 0
        invariant
            tests@.len() <= all.len(),
            tests@ == all.subrange(all.len() - tests@.len(), all.len() as int),
            backend.calls() <= c0 + spec_executed_count(
                all.subrange(0, all.len() - tests@.len()),
                inc,
            ),
            acc is Ok ==> backend.calls() == c0 + spec_executed_count(
                all.subrange(0, all.len() - tests@.len()),
                inc,
            ),
            acc is Ok ==> acc->Ok_0@.passed.len() + acc->Ok_0@.failed.len() + spec_skipped_count(
                all.subrange(0, all.len() - tests@.len()),
                inc,
            ) == all.len() - tests@.len(),
            acc is Ok ==> acc->Ok_0@.failed.len() == acc->Ok_0@.failed_run_results.len(),
            acc is Ok ==> spec_header(all.len()).is_prefix_of(acc->Ok_0@.notes),
            acc is Ok ==> acc->Ok_0@.passed.to_multiset().add(acc->Ok_0@.failed.to_multiset())
                == spec_executed_names(all.subrange(0, all.len() - tests@.len()), inc).to_multiset(),
            spec_executed_count(all.subrange(0, all.len() - tests@.len()), inc) == 0 ==> acc is Ok,
            acc is Ok ==> backend.outcomes() == out0 + consumed,
            acc is Ok ==> consumed.len() == spec_executed_count(
                all.subrange(0, all.len() - tests@.len()),
                inc,
            ),
            acc is Ok ==> acc->Ok_0@ == spec_suite_from(
                spec_initial_summary(all.len()),
                all.subrange(0, all.len() - tests@.len()),
                consumed,
                inc,
            ),
        decreases tests@.len(),
    {
        let ghost k = all.len() - tests@.len();
        let ghost item = tests@[0];
        let (name, test) = tests.remove(0);
        proof {
            assert((name, test) == item);
            assert(all[k as int] == item);
            assert(tests@ =~= all.subrange(all.len() - tests@.len(), all.len() as int));
            let pre = all.subrange(0, k as int);
            let post = all.subrange(0, k + 1);
            assert(post.drop_last() =~= pre);
            assert(post.last() == item);
        }
        let ghost acc_before = acc;
        let ghost consumed_before = consumed;
        let result = run_single_test(test, name, backend, config.include_ignored);
        proof {
            if acc_before is Ok && result is Ok && !spec_skipped(item, inc) {
                consumed = consumed.push(backend.outcomes().last());
            }
        }
        let ghost res = result;
        acc = update_summary(acc, result);
        proof {
            let pre = all.subrange(0, k as int);
            let post = all.subrange(0, k + 1);
            if spec_skipped(item, inc) {
                assert(spec_executed_count(post, inc) == spec_executed_count(pre, inc));
                assert(spec_skipped_count(post, inc) == spec_skipped_count(pre, inc) + 1);
                assert(spec_executed_names(post, inc) =~= spec_executed_names(pre, inc));
            } else {
                assert(spec_executed_count(post, inc) == spec_executed_count(pre, inc) + 1);
                assert(spec_skipped_count(post, inc) == spec_skipped_count(pre, inc));
                assert(spec_executed_names(post, inc) =~= spec_executed_names(pre, inc).push(
                    item.0@,
                ));
            }
            assert(post =~= all.subrange(0, all.len() - tests@.len()));
            if spec_executed_count(post, inc) == 0 {
                assert(spec_skipped(item, inc));
                assert(spec_executed_count(pre, inc) == 0);
                assert(acc_before is Ok);
                assert(acc is Ok);
            }
            if acc is Ok {
                assert(acc_before is Ok && res is Ok);
                let m0 = acc_before->Ok_0@;
                let m1 = acc->Ok_0@;
                assert(spec_header(all.len()).is_prefix_of(m1.notes)) by {
                    assert(m1.notes.subrange(0, spec_header(all.len()).len() as int)
                        =~= m0.notes.subrange(0, spec_header(all.len()).len() as int));
                }
                let names0 = spec_executed_names(pre, inc);
                let names1 = spec_executed_names(post, inc);
                match res->Ok_0.1 {
                    None => {
                        assert(m1.passed.to_multiset().add(m1.failed.to_multiset())
                            =~= names1.to_multiset());
                    },
                    Some(tr) => {
                        let n = item.0@;
                        assert(!spec_skipped(item, inc));
                        assert(names1.to_multiset() =~= names0.to_multiset().insert(n));
                        match tr.status {
                            TestStatus::Success => {
                                assert(m1.passed.to_multiset() =~= m0.passed.to_multiset().insert(
                                    n,
                                ));
                                assert(m1.passed.to_multiset().add(m1.failed.to_multiset())
                                    =~= names1.to_multiset());
                            },
                            TestStatus::Fail(_) => {
                                assert(m1.failed.to_multiset() =~= m0.failed.to_multiset().insert(
                                    n,
                                ));
                                assert(m1.passed.to_multiset().add(m1.failed.to_multiset())
                                    =~= names1.to_multiset());
                            },
                        }
                    },
                }
                let base = spec_initial_summary(all.len());
                assert(post.drop_last() == pre);
                if spec_skipped(item, inc) {
                    assert(consumed == consumed_before);
                    assert(spec_suite_from(base, post, consumed, inc) == spec_update(
                        spec_suite_from(base, pre, consumed, inc),
                        item.0@,
                        None,
                    ));
                    assert(m1 =~= spec_suite_from(base, post, consumed, inc));
                } else {
                    let o = backend.outcomes().last();
                    assert(consumed == consumed_before.push(o));
                    assert(backend.outcomes().drop_last() == out0 + consumed_before);
                    assert(backend.outcomes() =~= (out0 + consumed_before).push(o));
                    assert((out0 + consumed_before).push(o) =~= out0 + consumed);
                    assert(consumed.len() == spec_executed_count(post, inc));
                    lemma_suite_from_outs_agree(base, pre, consumed_before, consumed, inc);
                    assert(consumed[spec_executed_count(pre, inc) as int] == o);
                    assert(res->Ok_0.1 == Some(spec_result_of(item.1.expectation, o)));
                    assert(spec_suite_from(base, post, consumed, inc) == spec_update(
                        spec_suite_from(base, pre, consumed, inc),
                        item.0@,
                        Some(spec_result_of(item.1.expectation, o)),
                    ));
                    assert(m1 =~= spec_suite_from(base, post, consumed, inc));
                }
            }
        }
    }
    proof {
        assert(all.subrange(0, all.len() as int) =~= all);
        if acc is Ok {
            assert(backend.outcomes().skip(out0.len() as int) =~= consumed);
        }
    }
    acc
}

/// Runs the discovered tests of a compiled program against the real
/// execution backend and processes the results for a summary.
pub fn run_tests(
    named_tests: Vec<(String, TestConfig)>,
    sierra_program: Program,
    contracts_info: OrderedHashMap<Felt252, ContractInfo>,
    config: &TestRunConfig,
) -> (r: Result<TestsSummary, String>)
    ensures
        r is Ok ==> r->Ok_0@.passed.len() + r->Ok_0@.failed.len() + spec_skipped_count(
            named_tests@,
            config.include_ignored,
        ) == named_tests@.len(),
        r is Ok ==> r->Ok_0@.failed.len() == r->Ok_0@.failed_run_results.len(),
        r is Ok ==> spec_header(named_tests@.len()).is_prefix_of(r->Ok_0@.notes),
        r is Ok ==> r->Ok_0@.passed.to_multiset().add(r->Ok_0@.failed.to_multiset())
            == spec_executed_names(named_tests@, config.include_ignored).to_multiset(),
        r is Ok ==> exists|outs: Seq<RunOutcome>|
            outs.len() == spec_executed_count(named_tests@, config.include_ignored)
                && r->Ok_0@ == #[trigger] spec_suite_from(
                spec_initial_summary(named_tests@.len()),
                named_tests@,
                outs,
                config.include_ignored,
            ),
{
    let mut backend = match SierraBackend::build(&sierra_program, contracts_info, true) {
        Ok(b) => b,
        Err(_e) => {
            return Err(String::from_str("Failed setting up runner."));
        },
    };
    let r = run_tests_with(named_tests, &mut backend, config);
    proof {
        if r is Ok {
            let outs = backend.outcomes().skip(0);
            assert(outs =~= backend.outcomes());
            assert(r->Ok_0@ == spec_suite_from(
                spec_initial_summary(named_tests@.len()),
                named_tests@,
                outs,
                config.include_ignored,
            ));
        }
    }
    r
}

/// Runs a compiled suite, or reports why there is none to run: a compilation
/// failure is handed through as the terminal error, and then no test reaches
/// the backend.
pub fn run_suite<B: ExecutionBackend>(
    compiled: Result<Vec<(String, TestConfig)>, String>,
    backend: &mut B,
    config: &TestRunConfig,
) -> (r: Result<TestsSummary, String>)
    ensures
        compiled is Err ==> (r is Err && r->Err_0@ == compiled->Err_0@ && final(backend).calls()
            == old(backend).calls()),
        compiled is Ok ==> final(backend).calls() <= old(backend).calls() + spec_executed_count(
            compiled->Ok_0@,
            config.include_ignored,
        ),
        compiled is Ok && r is Ok ==> r->Ok_0@.passed.len() + r->Ok_0@.failed.len()
            + spec_skipped_count(compiled->Ok_0@, config.include_ignored)
            == compiled->Ok_0@.len(),
        compiled is Ok && r is Ok ==> spec_header(compiled->Ok_0@.len()).is_prefix_of(
            r->Ok_0@.notes,
        ),
        compiled is Ok && r is Ok ==> r->Ok_0@.passed.to_multiset().add(
            r->Ok_0@.failed.to_multiset(),
        ) == spec_executed_names(compiled->Ok_0@, config.include_ignored).to_multiset(),
        (compiled is Ok && spec_executed_count(compiled->Ok_0@, config.include_ignored) == 0)
            ==> r is Ok,
        compiled is Ok && r is Ok ==> r->Ok_0@ == spec_suite_from(
            spec_initial_summary(compiled->Ok_0@.len()),
            compiled->Ok_0@,
            final(backend).outcomes().skip(old(backend).outcomes().len() as int),
            config.include_ignored,
        ),
{
    match compiled {
        Err(diagnostics) => Err(diagnostics),
        Ok(named_tests) => run_tests_with(named_tests, backend, config),
    }
}

/// The terminal text of a failed compilation: the compiler's own error,
/// a blank line, and the collected diagnostics.
pub fn compilation_failure_text(err: &str, diagnostics: &str) -> (r: String)
    ensures
        r@ == err@ + "\n\n"@ + diagnostics@,
{
    let mut s = String::from_str(err);
    s.append("\n\n");
    s.append(diagnostics);
    s
}

} // verus!
