use vstd::prelude::*;
use crate::outcome::{FailureReason, Verdict};
use crate::plan::{filtered_tests, TestPlan};
use crate::statistics::TestStatistics;
use crate::storage::{published, setup_test_storage, StorageSnapshot};

verus! {

/// The cost of one operation: gas for the instruction and for memory.
#[derive(Clone, Copy, Debug, PartialEq, Eq, Structural)]
pub struct GasCost {
    pub instruction_gas: u64,
    pub memory_gas: u64,
}

/// The cost of every bytecode instruction and of every native function.
#[derive(Clone, Debug)]
pub struct CostTable {
    pub instruction_table: Vec<GasCost>,
    pub native_table: Vec<GasCost>,
}

/// The cost that bounds execution by a count of steps: one unit each.
pub open spec fn unit_cost() -> GasCost {
    GasCost { instruction_gas: 1, memory_gas: 1 }
}

/// Sets every entry of `costs` to one unit.
fn set_unit_costs(costs: &mut Vec<GasCost>)
    ensures
        final(costs).len() == old(costs).len(),
        forall|i: int| 0 <= i < final(costs).len() ==> #[trigger] final(costs)[i] == unit_cost(),
{
    let n = costs.len();
    let mut i: usize = 0;
    while i < n
        invariant
            costs.len() == n,
            i <= n,
            forall|j: int| 0 <= j < i ==> #[trigger] costs[j] == unit_cost(),
        decreases n - i,
    {
        costs.set(i, GasCost { instruction_gas: 1, memory_gas: 1 });
        i = i + 1;
    }
}

/// A cost table shaped as `schedule` where every instruction and every native
/// function costs exactly one unit, so that a gas budget bounds the number of
/// steps a test may take.
pub fn unit_cost_table(schedule: CostTable) -> (r: CostTable)
    ensures
        r.instruction_table.len() == schedule.instruction_table.len(),
        r.native_table.len() == schedule.native_table.len(),
        forall|i: int| 0 <= i < r.instruction_table.len() ==> #[trigger] r.instruction_table[i] == unit_cost(),
        forall|i: int| 0 <= i < r.native_table.len() ==> #[trigger] r.native_table[i] == unit_cost(),
{
    let mut cost_schedule = schedule;
    set_unit_costs(&mut cost_schedule.instruction_table);
    set_unit_costs(&mut cost_schedule.native_table);
    cost_schedule
}

/// What every test of a run shares: the step bound, the unit cost table and
/// the storage that each test starts from.
pub struct SharedTestingConfig {
    pub execution_bound: u64,
    pub cost_table: CostTable,
    pub starting_storage_state: StorageSnapshot,
}

/// A run of the tests of a plan over a number of worker threads.
pub struct TestRunner {
    pub num_threads: usize,
    pub testing_config: SharedTestingConfig,
    pub tests: TestPlan,
}

/// The outcome of a run: its statistics, with the plan that was run.
pub struct TestResults {
    pub statistics: TestStatistics,
    pub plan: TestPlan,
}

impl TestResults {
    pub fn new(statistics: TestStatistics, plan: TestPlan) -> (r: TestResults)
        ensures
            r.statistics == statistics,
            r.plan == plan,
    {
        TestResults { statistics, plan }
    }
}

impl TestRunner {
    /// A runner for `tests` with the step bound `execution_bound`; the cost
    /// table is `schedule` with every cost set to one unit, and the starting
    /// storage holds every module of the plan.
    pub fn new(execution_bound: u64, num_threads: usize, tests: TestPlan, schedule: CostTable) -> (r: TestRunner)
        ensures
            r.num_threads == num_threads,
            r.tests == tests,
            r.testing_config.execution_bound == execution_bound,
            r.testing_config.starting_storage_state@ == published(tests.module_info@),
            r.testing_config.cost_table.instruction_table.len() == schedule.instruction_table.len(),
            r.testing_config.cost_table.native_table.len() == schedule.native_table.len(),
            forall|i: int| 0 <= i < r.testing_config.cost_table.instruction_table.len()
                ==> #[trigger] r.testing_config.cost_table.instruction_table[i] == unit_cost(),
            forall|i: int| 0 <= i < r.testing_config.cost_table.native_table.len()
                ==> #[trigger] r.testing_config.cost_table.native_table[i] == unit_cost(),
    {
        let starting_storage_state = setup_test_storage(&tests.module_info);
        TestRunner {
            testing_config: SharedTestingConfig {
                execution_bound,
                cost_table: unit_cost_table(schedule),
                starting_storage_state,
            },
            num_threads,
            tests,
        }
    }

    /// Narrows the plan before a run: a module whose name holds `test_name_slice`
    /// keeps all its tests, any other keeps those whose name holds it.
    pub fn filter(&mut self, test_name_slice: &str)
        ensures
            final(self).num_threads == old(self).num_threads,
            final(self).testing_config.execution_bound == old(self).testing_config.execution_bound,
            final(self).testing_config.cost_table == old(self).testing_config.cost_table,
            final(self).testing_config.starting_storage_state@ == old(self).testing_config.starting_storage_state@,
            final(self).tests.module_info == old(self).tests.module_info,
            final(self).tests.module_tests.len() == old(self).tests.module_tests.len(),
            forall|i: int| 0 <= i < old(self).tests.module_tests.len() ==> {
                &&& (#[trigger] final(self).tests.module_tests[i]).module_id
                    == old(self).tests.module_tests[i].module_id
                &&& final(self).tests.module_tests[i].tests@ == filtered_tests(
                    old(self).tests.module_tests[i].module_id.name@,
                    old(self).tests.module_tests[i].tests@,
                    test_name_slice@,
                )
            },
    {
        self.tests.filter(test_name_slice);
    }

    /// Pairs the statistics of a run with the plan that was run.
    pub fn into_results(self, statistics: TestStatistics) -> (r: TestResults)
        ensures
            r.statistics == statistics,
            r.plan == self.tests,
    {
        TestResults::new(statistics, self.tests)
    }
}

/// The tag of the line that reports a verdict.
pub fn verdict_label(verdict: &Verdict) -> (r: &'static str)
    ensures
        *verdict == Verdict::Pass ==> r@ == "PASS"@,
        *verdict == Verdict::Fail(FailureReason::Timeout) ==> r@ == "TIMEOUT"@,
        (*verdict != Verdict::Pass && *verdict != Verdict::Fail(FailureReason::Timeout)) ==> r@ == "FAIL"@,
{
    proof {
        reveal_strlit("PASS");
        reveal_strlit("TIMEOUT");
        reveal_strlit("FAIL");
    }
    match verdict {
        Verdict::Pass => "PASS",
        Verdict::Fail(FailureReason::Timeout) => "TIMEOUT",
        Verdict::Fail(_) => "FAIL",
    }
}

} // verus!
