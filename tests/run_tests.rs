use move_unit_test::address::Address;
use move_unit_test::outcome::{
    ExpectedFailure, FailureReason, MajorStatus, Verdict, VmError, VmOutcome,
};
use move_unit_test::plan::{ModuleId, ModuleTestPlan, TestInfo, TestPlan};
use move_unit_test::runner::{unit_cost_table, verdict_label, CostTable, GasCost, TestRunner};
use move_unit_test::statistics::{exec_module_tests, reduce_statistics, TestFailure, TestStatistics};

fn module(name: &str) -> ModuleId {
    ModuleId { address: Address::new([0u8; 16]), name: name.to_string() }
}

fn info(expected: Option<ExpectedFailure>) -> TestInfo {
    TestInfo { arguments: vec![], expected_failure: expected }
}

fn module_plan(name: &str, tests: &[&str]) -> ModuleTestPlan {
    ModuleTestPlan {
        module_id: module(name),
        tests: tests.iter().map(|t| (t.to_string(), info(None))).collect(),
    }
}

fn names(m: &ModuleTestPlan) -> Vec<String> {
    m.tests.iter().map(|t| t.0.clone()).collect()
}

fn abort(code: u64) -> VmOutcome {
    VmOutcome::Failed(VmError { major_status: MajorStatus::Aborted, sub_status: Some(code) })
}

fn runner(modules: Vec<ModuleTestPlan>) -> TestRunner {
    let plan = TestPlan { module_info: vec![], module_tests: modules };
    let schedule = CostTable { instruction_table: vec![], native_table: vec![] };
    TestRunner::new(10, 4, plan, schedule)
}

#[test]
fn filter_narrows_modules_by_test_name() {
    let mut r = runner(vec![module_plan("coin", &["mint", "burn"]), module_plan("util", &["mint_helper"])]);
    r.filter("mint");
    assert_eq!(names(&r.tests.module_tests[0]), vec!["mint".to_string()]);
    assert_eq!(names(&r.tests.module_tests[1]), vec!["mint_helper".to_string()]);
}

#[test]
fn filter_keeps_all_tests_of_matching_module() {
    let mut r = runner(vec![module_plan("minter", &["a", "b"]), module_plan("util", &["c"])]);
    r.filter("mint");
    assert_eq!(names(&r.tests.module_tests[0]), vec!["a".to_string(), "b".to_string()]);
    assert!(r.tests.module_tests[1].tests.is_empty());
}

#[test]
fn filter_twice_is_filter_once() {
    let mut once = runner(vec![module_plan("coin", &["mint", "burn", "remint"])]);
    once.filter("mint");
    let mut twice = runner(vec![module_plan("coin", &["mint", "burn", "remint"])]);
    twice.filter("mint");
    twice.filter("mint");
    assert_eq!(names(&once.tests.module_tests[0]), names(&twice.tests.module_tests[0]));
    assert_eq!(names(&once.tests.module_tests[0]), vec!["mint".to_string(), "remint".to_string()]);
}

#[test]
fn unexpected_abort_scenario() {
    let plan = ModuleTestPlan { module_id: module("m"), tests: vec![("t".to_string(), info(None))] };
    let stats = exec_module_tests(&plan, &vec![abort(7)]);
    assert_eq!(stats.passed(), 0);
    assert_eq!(stats.failed(), 1);
    assert_eq!(stats.failures[0].1.reason, FailureReason::Aborted(7));
    assert_eq!(stats.failures[0].1.function_name, "t");
    assert_eq!(stats.failures[0].0.name, "m");
}

#[test]
fn expected_code_scenario() {
    let plan = ModuleTestPlan {
        module_id: module("m"),
        tests: vec![("t".to_string(), info(Some(ExpectedFailure::ExpectedWithCode(7))))],
    };
    let stats = exec_module_tests(&plan, &vec![abort(7)]);
    assert_eq!(stats.passed(), 1);
    assert_eq!(stats.failed(), 0);
}

#[test]
fn wrong_code_scenario() {
    let plan = ModuleTestPlan {
        module_id: module("m"),
        tests: vec![("t".to_string(), info(Some(ExpectedFailure::ExpectedWithCode(7))))],
    };
    let stats = exec_module_tests(&plan, &vec![abort(9)]);
    assert_eq!(stats.failed(), 1);
    assert_eq!(
        stats.failures[0].1.reason,
        FailureReason::WrongAbortCode { expected: 7, actual: 9 }
    );
}

#[test]
fn step_bound_scenario() {
    // a bound of 10 steps under unit costs, for a body that takes 50: the
    // machine stops with out of gas
    let schedule = CostTable {
        instruction_table: vec![GasCost { instruction_gas: 0, memory_gas: 0 }; 50],
        native_table: vec![GasCost { instruction_gas: 0, memory_gas: 0 }; 3],
    };
    let costs = unit_cost_table(schedule);
    let spent: u64 = costs.instruction_table.iter().map(|c| c.instruction_gas).sum();
    assert_eq!(spent, 50);
    assert!(costs.native_table.iter().all(|c| *c == GasCost { instruction_gas: 1, memory_gas: 1 }));
    let bound: u64 = 10;
    assert!(spent > bound);
    let plan = ModuleTestPlan { module_id: module("m"), tests: vec![("t".to_string(), info(None))] };
    let outcome = VmOutcome::Failed(VmError { major_status: MajorStatus::OutOfGas, sub_status: None });
    let stats = exec_module_tests(&plan, &vec![outcome]);
    assert_eq!(stats.failures[0].1.reason, FailureReason::Timeout);
    assert_eq!(stats.failures[0].1.vm_error, Some(VmError { major_status: MajorStatus::OutOfGas, sub_status: None }));
}

fn hundred_tests_in(workers: usize) -> (u64, usize) {
    let mut parts = Vec::new();
    let per = 100 / workers;
    let mut made = 0;
    for w in 0..workers {
        let n = if w + 1 == workers { 100 - made } else { per };
        made += n;
        let mut tests = Vec::new();
        let mut outcomes = Vec::new();
        for k in 0..n {
            let i = made - n + k;
            tests.push((format!("t{}", i), info(None)));
            outcomes.push(match i % 3 {
                0 => VmOutcome::Executed,
                1 => abort(i as u64),
                _ => VmOutcome::Failed(VmError { major_status: MajorStatus::OutOfGas, sub_status: None }),
            });
        }
        let plan = ModuleTestPlan { module_id: module(&format!("m{}", w)), tests };
        parts.push(exec_module_tests(&plan, &outcomes));
    }
    let total = reduce_statistics(parts);
    (total.passed(), total.failed())
}

#[test]
fn hundred_tests_are_all_counted_for_any_worker_count() {
    for workers in 1..=8 {
        let (passed, failed) = hundred_tests_in(workers);
        assert_eq!(passed as usize + failed, 100);
    }
    let (p4, f4) = hundred_tests_in(4);
    let (p1, f1) = hundred_tests_in(1);
    assert_eq!((p4, f4), (p1, f1));
}

#[test]
fn combine_adds_passes_and_gathers_failures() {
    let mut a = TestStatistics::new();
    a.test_success();
    a.test_failure(TestFailure::new(FailureReason::Unknown, "x", None), &module("m"));
    let mut b = TestStatistics::new();
    b.test_success();
    b.test_success();
    let ab = a.combine(b);
    assert_eq!(ab.passed(), 3);
    assert_eq!(ab.failed(), 1);
}

#[test]
fn combine_with_empty_is_identity() {
    let mut a = TestStatistics::new();
    a.test_success();
    let r = TestStatistics::new().combine(a);
    assert_eq!(r.passed(), 1);
    assert_eq!(r.failed(), 0);
}

#[test]
fn record_returns_verdict() {
    let mut s = TestStatistics::new();
    let v = s.record(&module("m"), &"t".to_string(), None, &VmOutcome::Executed);
    assert_eq!(v, Verdict::Pass);
    assert_eq!(s.passed(), 1);
}

#[test]
fn labels() {
    assert_eq!(verdict_label(&Verdict::Pass), "PASS");
    assert_eq!(verdict_label(&Verdict::Fail(FailureReason::Timeout)), "TIMEOUT");
    assert_eq!(verdict_label(&Verdict::Fail(FailureReason::NoAbort)), "FAIL");
}

#[test]
fn runner_keeps_bound_and_threads() {
    let r = runner(vec![]);
    assert_eq!(r.num_threads, 4);
    assert_eq!(r.testing_config.execution_bound, 10);
    let stats = TestStatistics::new();
    let results = r.into_results(stats);
    assert!(results.plan.module_tests.is_empty());
}
