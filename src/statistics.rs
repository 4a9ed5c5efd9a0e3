use vstd::prelude::*;
use vstd::multiset::Multiset;
use crate::outcome::{error_of, verdict_of, classify, ExpectedFailure, FailureReason, Verdict, VmError, VmOutcome};
use crate::plan::{ModuleId, ModuleTestPlan, TestInfo};
use crate::storage::{key_of, ModuleKey};

verus! {

broadcast use {vstd::seq_lib::group_to_multiset_ensures, vstd::multiset::group_multiset_axioms};

/// One test that did not pass.
#[derive(Clone, Debug)]
pub struct TestFailure {
    pub function_name: String,
    pub reason: FailureReason,
    pub vm_error: Option<VmError>,
}

/// A failure, as statistics count it: module identity, function name, reason and error.
pub type FailureRecord = (ModuleKey, Seq<char>, FailureReason, Option<VmError>);

impl TestFailure {
    pub fn new(reason: FailureReason, function_name: &str, vm_error: Option<VmError>) -> (r: TestFailure)
        ensures
            r.reason == reason,
            r.function_name@ == function_name@,
            r.vm_error == vm_error,
    {
        TestFailure { function_name: function_name.to_owned(), reason, vm_error }
    }
}

/// Passed tests and failures gathered over part of a run.
pub struct TestStatistics {
    pub passed: u64,
    pub failures: Vec<(ModuleId, TestFailure)>,
}

/// What statistics hold: the number of passed tests and the failures, in no order.
pub struct StatisticsView {
    pub passed: nat,
    pub failures: Multiset<FailureRecord>,
}

pub open spec fn record_of(f: (ModuleId, TestFailure)) -> FailureRecord {
    (key_of(f.0), f.1.function_name@, f.1.reason, f.1.vm_error)
}

impl View for TestStatistics {
    type V = StatisticsView;

    open spec fn view(&self) -> StatisticsView {
        StatisticsView {
            passed: self.passed as nat,
            failures: self.failures@.map_values(|f: (ModuleId, TestFailure)| record_of(f)).to_multiset(),
        }
    }
}

/// Statistics with nothing in them.
pub open spec fn empty_view() -> StatisticsView {
    StatisticsView { passed: 0, failures: Multiset::empty() }
}

/// The statistics of two parts of a run, taken together.
pub open spec fn combine_view(a: StatisticsView, b: StatisticsView) -> StatisticsView {
    StatisticsView { passed: a.passed + b.passed, failures: a.failures.add(b.failures) }
}

/// How many tests statistics account for, passed or failed.
pub open spec fn count_of(s: StatisticsView) -> nat {
    s.passed + s.failures.len()
}

/// Statistics after one more test of module `module` named `name` got `verdict`.
pub open spec fn record_view(
    s: StatisticsView,
    module: ModuleKey,
    name: Seq<char>,
    verdict: Verdict,
    outcome: VmOutcome,
) -> StatisticsView {
    match verdict {
        Verdict::Pass => StatisticsView { passed: s.passed + 1, failures: s.failures },
        Verdict::Fail(reason) => StatisticsView {
            passed: s.passed,
            failures: s.failures.insert((module, name, reason, error_of(outcome))),
        },
    }
}

/// The statistics of the first `n` tests of a module named `module`, each
/// classified against its outcome.
pub open spec fn tally(
    module: ModuleKey,
    tests: Seq<(String, TestInfo)>,
    outcomes: Seq<VmOutcome>,
    n: nat,
) -> StatisticsView
    decreases n,
{
    if n == 0 {
        empty_view()
    } else {
        let i = n - 1;
        record_view(
            tally(module, tests, outcomes, i as nat),
            module,
            tests[i].0@,
            verdict_of(tests[i].1.expected_failure, outcomes[i]),
            outcomes[i],
        )
    }
}

impl TestStatistics {
    pub fn new() -> (r: TestStatistics)
        ensures
            r@ == empty_view(),
    {
        let r = TestStatistics { passed: 0, failures: Vec::new() };
        proof {
            let f = |f: (ModuleId, TestFailure)| record_of(f);
            assert(r.failures@.map_values(f) =~= Seq::<FailureRecord>::empty());
            vstd::seq_lib::to_multiset_len(r.failures@.map_values(f));
            assert(r@.failures =~= Multiset::empty());
        }
        r
    }

    /// The number of passed tests.
    pub fn passed(&self) -> (r: u64)
        ensures
            r as nat == self@.passed,
    {
        self.passed
    }

    /// The number of failed tests.
    pub fn failed(&self) -> (r: usize)
        ensures
            r as nat == self@.failures.len(),
    {
        proof {
            broadcast use vstd::seq_lib::group_to_multiset_ensures;
        }
        self.failures.len()
    }

    /// Counts one more passed test.
    pub fn test_success(&mut self)
        requires
            old(self)@.passed < u64::MAX,
        ensures
            final(self)@ == (StatisticsView { passed: old(self)@.passed + 1, failures: old(self)@.failures }),
    {
        self.passed = self.passed + 1;
    }

    /// Records one failed test of the module `module_id`.
    pub fn test_failure(&mut self, failure: TestFailure, module_id: &ModuleId)
        ensures
            final(self)@ == (StatisticsView {
                passed: old(self)@.passed,
                failures: old(self)@.failures.insert(
                    (key_of(*module_id), failure.function_name@, failure.reason, failure.vm_error),
                ),
            }),
    {
        let ghost before = self.failures@;
        let module = ModuleId { address: module_id.address, name: module_id.name.clone() };
        let entry = (module, failure);
        self.failures.push(entry);
        proof {
            let f = |f: (ModuleId, TestFailure)| record_of(f);
            assert(self.failures@.map_values(f) =~= before.map_values(f).push(record_of(entry)));
            broadcast use vstd::seq_lib::group_to_multiset_ensures;
            vstd::seq_lib::to_multiset_build(before.map_values(f), record_of(entry));
        }
    }

    /// The statistics of both parts: pass counts add up and failures are
    /// gathered from both.
    pub fn combine(self, other: TestStatistics) -> (r: TestStatistics)
        requires
            self@.passed + other@.passed <= u64::MAX,
        ensures
            r@ == combine_view(self@, other@),
    {
        let ghost a = self.failures@;
        let ghost b = other.failures@;
        let mut failures = self.failures;
        let mut rest = other.failures;
        failures.append(&mut rest);
        let r = TestStatistics { passed: self.passed + other.passed, failures };
        proof {
            let f = |f: (ModuleId, TestFailure)| record_of(f);
            assert(r.failures@.map_values(f) =~= a.map_values(f) + b.map_values(f));
            vstd::seq_lib::lemma_multiset_commutative(a.map_values(f), b.map_values(f));
        }
        r
    }

    /// Classifies the outcome of the test `function_name` of `module_id` and
    /// records the verdict, which it returns.
    pub fn record(
        &mut self,
        module_id: &ModuleId,
        function_name: &String,
        expected: Option<ExpectedFailure>,
        outcome: &VmOutcome,
    ) -> (r: Verdict)
        requires
            old(self)@.passed < u64::MAX,
        ensures
            r == verdict_of(expected, *outcome),
            final(self)@ == record_view(old(self)@, key_of(*module_id), function_name@, r, *outcome),
    {
        let verdict = classify(expected, outcome);
        let vm_error = match outcome {
            VmOutcome::Executed => None,
            VmOutcome::Failed(err) => Some(*err),
        };
        match verdict {
            Verdict::Pass => self.test_success(),
            Verdict::Fail(reason) => {
                self.test_failure(TestFailure::new(reason, function_name.as_str(), vm_error), module_id)
            },
        }
        verdict
    }
}

/// What each of the given statistics holds.
pub open spec fn views_of(parts: Seq<TestStatistics>) -> Seq<StatisticsView> {
    parts.map_values(|p: TestStatistics| p@)
}

/// Statistics of several parts of a run taken together, left to right.
pub open spec fn combine_all(parts: Seq<StatisticsView>) -> StatisticsView
    decreases parts.len(),
{
    if parts.len() == 0 {
        empty_view()
    } else {
        combine_view(combine_all(parts.drop_last()), parts.last())
    }
}

/// The tests that the parts account for, added up.
pub open spec fn total_count(parts: Seq<StatisticsView>) -> nat
    decreases parts.len(),
{
    if parts.len() == 0 {
        0
    } else {
        total_count(parts.drop_last()) + count_of(parts.last())
    }
}

/// The tests that a prefix of the parts accounts for are no more than all of them.
pub proof fn lemma_total_count_prefix(parts: Seq<StatisticsView>, k: int)
    requires
        0 <= k <= parts.len(),
    ensures
        total_count(parts.subrange(0, k)) <= total_count(parts),
    decreases parts.len(),
{
    if k < parts.len() {
        assert(parts.subrange(0, k) =~= parts.drop_last().subrange(0, k));
        lemma_total_count_prefix(parts.drop_last(), k);
    } else {
        assert(parts.subrange(0, k) =~= parts);
    }
}

/// Combining is commutative: the order of two parts does not matter.
pub proof fn lemma_combine_commutative(a: StatisticsView, b: StatisticsView)
    ensures
        combine_view(a, b) == combine_view(b, a),
{
    assert(a.failures.add(b.failures) =~= b.failures.add(a.failures));
}

/// Combining is associative: how parts are grouped does not matter.
pub proof fn lemma_combine_associative(a: StatisticsView, b: StatisticsView, c: StatisticsView)
    ensures
        combine_view(combine_view(a, b), c) == combine_view(a, combine_view(b, c)),
{
    assert(a.failures.add(b.failures).add(c.failures) =~= a.failures.add(b.failures.add(c.failures)));
}

/// Empty statistics are the identity of combining.
pub proof fn lemma_combine_identity(a: StatisticsView)
    ensures
        combine_view(empty_view(), a) == a,
        combine_view(a, empty_view()) == a,
{
    assert(empty_view().failures.add(a.failures) =~= a.failures);
    assert(a.failures.add(empty_view().failures) =~= a.failures);
}

/// Combining loses no test and counts none twice.
pub proof fn lemma_combine_count(a: StatisticsView, b: StatisticsView)
    ensures
        count_of(combine_view(a, b)) == count_of(a) + count_of(b),
{
}

/// The statistics of a module account for each of its tests exactly once.
pub proof fn lemma_tally_count(
    module: ModuleKey,
    tests: Seq<(String, TestInfo)>,
    outcomes: Seq<VmOutcome>,
    n: nat,
)
    ensures
        count_of(tally(module, tests, outcomes, n)) == n,
    decreases n,
{
    if n > 0 {
        lemma_tally_count(module, tests, outcomes, (n - 1) as nat);
    }
}

/// However the parts of a run are combined, the result accounts for every
/// test that the parts account for.
pub proof fn lemma_combine_all_count(parts: Seq<StatisticsView>)
    ensures
        count_of(combine_all(parts)) == total_count(parts),
    decreases parts.len(),
{
    if parts.len() > 0 {
        lemma_combine_all_count(parts.drop_last());
        lemma_combine_count(combine_all(parts.drop_last()), parts.last());
    }
}

/// The statistics of each module of `modules`, run against the outcomes at
/// the same position of `outcomes`.
pub open spec fn module_tallies(modules: Seq<ModuleTestPlan>, outcomes: Seq<Seq<VmOutcome>>) -> Seq<StatisticsView> {
    Seq::new(
        modules.len(),
        |i: int| tally(key_of(modules[i].module_id), modules[i].tests@, outcomes[i], modules[i].tests.len() as nat),
    )
}

/// The number of tests over all of `modules`.
pub open spec fn test_count(modules: Seq<ModuleTestPlan>) -> nat
    decreases modules.len(),
{
    if modules.len() == 0 {
        0
    } else {
        test_count(modules.drop_last()) + modules.last().tests@.len()
    }
}

/// A run split into modules, whatever their number and size, accounts for
/// every test exactly once: passes and failures together are the number of
/// tests.
pub proof fn lemma_every_test_counted(modules: Seq<ModuleTestPlan>, outcomes: Seq<Seq<VmOutcome>>)
    requires
        modules.len() == outcomes.len(),
    ensures
        count_of(combine_all(module_tallies(modules, outcomes))) == test_count(modules),
    decreases modules.len(),
{
    let parts = module_tallies(modules, outcomes);
    lemma_combine_all_count(parts);
    if modules.len() > 0 {
        let n = modules.len() - 1;
        assert(module_tallies(modules.drop_last(), outcomes.drop_last()) =~= parts.drop_last());
        lemma_every_test_counted(modules.drop_last(), outcomes.drop_last());
        lemma_combine_all_count(parts.drop_last());
        lemma_tally_count(key_of(modules[n].module_id), modules[n].tests@, outcomes[n], modules[n].tests.len() as nat);
    }
}

/// Runs the classification of every test of `test_plan` against the outcome
/// at the same position of `outcomes`, in the module's order.
pub fn exec_module_tests(test_plan: &ModuleTestPlan, outcomes: &Vec<VmOutcome>) -> (r: TestStatistics)
    requires
        outcomes.len() == test_plan.tests.len(),
        test_plan.tests.len() < u64::MAX,
    ensures
        r@ == tally(key_of(test_plan.module_id), test_plan.tests@, outcomes@, test_plan.tests.len() as nat),
        count_of(r@) == test_plan.tests.len(),
{
    let mut stats = TestStatistics::new();
    let n = test_plan.tests.len();
    let mut i: usize = 0;
    while i < n
        invariant
            n == test_plan.tests.len(),
            n == outcomes.len(),
            n < u64::MAX,
            i <= n,
            stats@ == tally(key_of(test_plan.module_id), test_plan.tests@, outcomes@, i as nat),
            count_of(stats@) == i,
        decreases n - i,
    {
        let test = &test_plan.tests[i];
        proof {
            lemma_tally_count(key_of(test_plan.module_id), test_plan.tests@, outcomes@, i as nat);
        }
        stats.record(&test_plan.module_id, &test.0, test.1.expected_failure, &outcomes[i]);
        proof {
            lemma_tally_count(key_of(test_plan.module_id), test_plan.tests@, outcomes@, (i + 1) as nat);
        }
        i = i + 1;
    }
    stats
}

/// Combines the statistics of all parts, left to right.
pub fn reduce_statistics(parts: Vec<TestStatistics>) -> (r: TestStatistics)
    requires
        total_count(views_of(parts@)) <= u64::MAX,
    ensures
        r@ == combine_all(views_of(parts@)),
        count_of(r@) == total_count(views_of(parts@)),
{
    let ghost views = views_of(parts@);
    let mut acc = TestStatistics::new();
    let mut rest = parts;
    let ghost mut k: int = 0;
    proof {
        assert(views.subrange(0, 0) =~= Seq::<StatisticsView>::empty());
        assert(views_of(rest@) =~= views.subrange(0, views.len() as int));
    }
    while rest.len() > 0
        invariant
            0 <= k <= views.len(),
            k + rest.len() == views.len(),
            views_of(rest@) =~= views.subrange(k, views.len() as int),
            acc@ == combine_all(views.subrange(0, k)),
            total_count(views) <= u64::MAX,
        decreases rest.len(),
    {
        let ghost before = rest@;
        let part = rest.remove(0);
        proof {
            assert(views_of(before)[0] == views.subrange(k, views.len() as int)[0]);
            assert(part@ == views[k]);
            assert(rest@ =~= before.subrange(1, before.len() as int));
            assert(views.subrange(0, k + 1).drop_last() =~= views.subrange(0, k));
            lemma_total_count_prefix(views, k + 1);
            lemma_combine_all_count(views.subrange(0, k + 1));
            assert forall|j: int| 0 <= j < rest.len() implies #[trigger] views_of(rest@)[j]
                == views.subrange(k + 1, views.len() as int)[j] by {
                assert(views_of(before)[j + 1] == views.subrange(k, views.len() as int)[j + 1]);
            }
            assert(views_of(rest@) =~= views.subrange(k + 1, views.len() as int));
        }
        acc = acc.combine(part);
        proof {
            k = k + 1;
        }
    }
    proof {
        assert(views.subrange(0, k) =~= views);
        lemma_combine_all_count(views);
    }
    acc
}

} // verus!
