use vstd::prelude::*;
use crate::address::{hex_upper, without_leading_zeros, Address};
use vstd::string::StringExecFns;
use crate::outcome::ExpectedFailure;

verus! {

/// The identity of a module: the address it is published under and its name.
#[derive(Clone, Debug)]
pub struct ModuleId {
    pub address: Address,
    pub name: String,
}

/// What is known of one test: its serialized literal arguments and what it
/// declares about failing.
#[derive(Clone, Debug)]
pub struct TestInfo {
    pub arguments: Vec<Vec<u8>>,
    pub expected_failure: Option<ExpectedFailure>,
}

/// The tests of one module, by function name.
#[derive(Clone, Debug)]
pub struct ModuleTestPlan {
    pub module_id: ModuleId,
    pub tests: Vec<(String, TestInfo)>,
}

/// Everything that a run needs: the serialized modules and the tests of each.
#[derive(Clone, Debug)]
pub struct TestPlan {
    pub module_info: Vec<(ModuleId, Vec<u8>)>,
    pub module_tests: Vec<ModuleTestPlan>,
}

/// Whether `part` occurs in `s` as a run of consecutive characters.
pub open spec fn has_substring(s: Seq<char>, part: Seq<char>) -> bool {
    exists|i: int| 0 <= i && i + part.len() <= s.len() && #[trigger] s.subrange(i, i + part.len()) == part
}

/// Relies on str::contains: true exactly where `part` occurs in `s`.
#[verifier::external_body]
fn str_contains(s: &str, part: &str) -> (r: bool)
    ensures
        r == has_substring(s@, part@),
{
    s.contains(part)
}

/// Whether the name of a test holds `part`.
pub open spec fn name_holds(part: Seq<char>) -> spec_fn((String, TestInfo)) -> bool {
    |t: (String, TestInfo)| has_substring(t.0@, part)
}

/// The tests of the module named `module` that a filter by `part` keeps: all
/// of them where the module's name holds `part`, else those whose name does.
pub open spec fn filtered_tests(
    module: Seq<char>,
    tests: Seq<(String, TestInfo)>,
    part: Seq<char>,
) -> Seq<(String, TestInfo)> {
    if has_substring(module, part) {
        tests
    } else {
        tests.filter(name_holds(part))
    }
}

/// Filtering a sequence twice by one predicate keeps what filtering once keeps.
pub proof fn lemma_filter_twice<A>(s: Seq<A>, pred: spec_fn(A) -> bool)
    ensures
        s.filter(pred).filter(pred) == s.filter(pred),
    decreases s.len(),
{
    broadcast use vstd::seq_lib::group_filter_ensures;

    if s.len() == 0 {
        assert(s.filter(pred) =~= Seq::<A>::empty());
        assert(s.filter(pred).filter(pred) =~= Seq::<A>::empty());
    } else {
        let init = s.drop_last();
        lemma_filter_twice(init, pred);
        assert(init.push(s.last()) =~= s);
        init.lemma_filter_push(s.last(), pred);
        if pred(s.last()) {
            init.filter(pred).lemma_filter_push(s.last(), pred);
        }
    }
}

/// Filtering the tests of a module twice by the same part of a name keeps
/// what filtering once keeps.
pub proof fn lemma_filter_idempotent(module: Seq<char>, tests: Seq<(String, TestInfo)>, part: Seq<char>)
    ensures
        filtered_tests(module, filtered_tests(module, tests, part), part) == filtered_tests(module, tests, part),
{
    lemma_filter_twice(tests, name_holds(part));
}

impl ModuleTestPlan {
    /// Keeps every test where the module's name holds `part`; else keeps only
    /// the tests whose name holds it.
    pub fn filter_tests(&mut self, part: &str)
        ensures
            final(self).module_id == old(self).module_id,
            final(self).tests@ == filtered_tests(old(self).module_id.name@, old(self).tests@, part@),
    {
        if str_contains(self.module_id.name.as_str(), part) {
            return;
        }
        let mut rest: Vec<(String, TestInfo)> = Vec::new();
        std::mem::swap(&mut rest, &mut self.tests);
        let ghost tests = rest@;
        let ghost pred = name_holds(part@);
        let mut kept: Vec<(String, TestInfo)> = Vec::new();
        let ghost mut k: int = 0;
        proof {
            assert(tests.subrange(0, 0) =~= Seq::<(String, TestInfo)>::empty());
            assert(Seq::<(String, TestInfo)>::empty().filter(pred) =~= Seq::<(String, TestInfo)>::empty()) by {
                reveal(Seq::filter);
            }
            assert(rest@ =~= tests.subrange(0, tests.len() as int));
        }
        while rest.len() > 0
            invariant
                0 <= k <= tests.len(),
                k + rest.len() == tests.len(),
                rest@ =~= tests.subrange(k, tests.len() as int),
                kept@ == tests.subrange(0, k).filter(pred),
                pred == name_holds(part@),
                self.module_id == old(self).module_id,
                !has_substring(self.module_id.name@, part@),
                tests == old(self).tests@,
            decreases rest.len(),
        {
            let test = rest.remove(0);
            proof {
                assert(tests.subrange(0, k + 1) =~= tests.subrange(0, k).push(test));
                tests.subrange(0, k).lemma_filter_push(test, pred);
            }
            if str_contains(test.0.as_str(), part) {
                kept.push(test);
            }
            proof {
                k = k + 1;
            }
        }
        proof {
            assert(tests.subrange(0, k) =~= tests);
        }
        self.tests = kept;
    }
}

impl TestPlan {
    /// Filters the tests of every module by `part`, as `filter_tests` does.
    pub fn filter(&mut self, part: &str)
        ensures
            final(self).module_info == old(self).module_info,
            final(self).module_tests.len() == old(self).module_tests.len(),
            forall|i: int| 0 <= i < old(self).module_tests.len() ==> {
                &&& (#[trigger] final(self).module_tests[i]).module_id == old(self).module_tests[i].module_id
                &&& final(self).module_tests[i].tests@ == filtered_tests(
                    old(self).module_tests[i].module_id.name@,
                    old(self).module_tests[i].tests@,
                    part@,
                )
            },
    {
        let mut rest: Vec<ModuleTestPlan> = Vec::new();
        std::mem::swap(&mut rest, &mut self.module_tests);
        let ghost modules = rest@;
        let mut done: Vec<ModuleTestPlan> = Vec::new();
        while rest.len() > 0
            invariant
                done.len() + rest.len() == modules.len(),
                rest@ =~= modules.subrange(done.len() as int, modules.len() as int),
                self.module_info == old(self).module_info,
                modules == old(self).module_tests@,
                forall|i: int| 0 <= i < done.len() ==> {
                    &&& (#[trigger] done[i]).module_id == modules[i].module_id
                    &&& done[i].tests@ == filtered_tests(modules[i].module_id.name@, modules[i].tests@, part@)
                },
            decreases rest.len(),
        {
            let mut module = rest.remove(0);
            module.filter_tests(part);
            done.push(module);
        }
        self.module_tests = done;
    }
}

/// The module's address as `short_str` writes it, `::`, and its name.
pub fn format_module_id(module_id: &ModuleId) -> (r: String)
    ensures
        r@ == "0x"@ + without_leading_zeros(hex_upper(module_id.address.0@)) + "::"@ + module_id.name@,
{
    module_id.address.short_str().concat("::").concat(module_id.name.as_str())
}

} // verus!
