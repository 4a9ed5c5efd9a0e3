use move_unit_test::address::Address;
use move_unit_test::plan::{ModuleId, TestPlan};
use move_unit_test::runner::{CostTable, TestRunner};
use move_unit_test::storage::{same_module, setup_test_storage, StorageSnapshot};

fn id(addr: u8, name: &str) -> ModuleId {
    let mut a = [0u8; 16];
    a[15] = addr;
    ModuleId { address: Address::new(a), name: name.to_string() }
}

#[test]
fn later_module_overwrites_earlier() {
    let modules = vec![(id(1, "m"), vec![1, 2]), (id(2, "m"), vec![3]), (id(1, "m"), vec![4, 5, 6])];
    let s = setup_test_storage(&modules);
    assert_eq!(s.get_module(&id(1, "m")), Some(&vec![4, 5, 6]));
    assert_eq!(s.get_module(&id(2, "m")), Some(&vec![3]));
    assert_eq!(s.get_module(&id(1, "n")), None);
}

#[test]
fn empty_storage_has_nothing() {
    let s = StorageSnapshot::new();
    assert_eq!(s.get_module(&id(1, "m")), None);
}

#[test]
fn publish_replaces() {
    let mut s = StorageSnapshot::new();
    s.publish_or_overwrite_module(id(3, "x"), vec![9]);
    s.publish_or_overwrite_module(id(3, "x"), vec![8]);
    assert_eq!(s.get_module(&id(3, "x")), Some(&vec![8]));
}

#[test]
fn module_identity_compares_address_and_name() {
    assert!(same_module(&id(1, "m"), &id(1, "m")));
    assert!(!same_module(&id(1, "m"), &id(2, "m")));
    assert!(!same_module(&id(1, "m"), &id(1, "n")));
}

#[test]
fn runner_starts_from_plan_modules() {
    let plan = TestPlan { module_info: vec![(id(1, "coin"), vec![0xa1])], module_tests: vec![] };
    let schedule = CostTable { instruction_table: vec![], native_table: vec![] };
    let r = TestRunner::new(100, 2, plan, schedule);
    assert_eq!(r.testing_config.starting_storage_state.get_module(&id(1, "coin")), Some(&vec![0xa1]));
}
