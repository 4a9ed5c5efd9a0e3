use vstd::prelude::*;
use crate::plan::ModuleId;

verus! {

/// What identifies a module in storage: its address bytes and its name.
pub type ModuleKey = (Seq<u8>, Seq<char>);

pub open spec fn key_of(id: ModuleId) -> ModuleKey {
    (id.address.0@, id.name@)
}

/// The storage that publishing `modules` in order gives: each module's bytes
/// under its identity, a later module overwriting an earlier one of the same
/// identity.
pub open spec fn published(modules: Seq<(ModuleId, Vec<u8>)>) -> Map<ModuleKey, Seq<u8>>
    decreases modules.len(),
{
    if modules.len() == 0 {
        Map::empty()
    } else {
        published(modules.drop_last()).insert(key_of(modules.last().0), modules.last().1@)
    }
}

/// Whether two module identities are the same.
pub fn same_module(a: &ModuleId, b: &ModuleId) -> (r: bool)
    ensures
        r == (key_of(*a) == key_of(*b)),
{
    let mut i: usize = 0;
    while i < 16
        invariant
            i <= 16,
            a.address.0@.len() == 16,
            b.address.0@.len() == 16,
            forall|j: int| 0 <= j < i ==> a.address.0@[j] == b.address.0@[j],
        decreases 16 - i,
    {
        if a.address.0[i] != b.address.0[i] {
            return false;
        }
        i = i + 1;
    }
    assert(a.address.0@ =~= b.address.0@);
    a.name == b.name
}

/// The starting state of every test: the serialized form of each module,
/// keyed by its identity.
pub struct StorageSnapshot {
    modules: Vec<(ModuleId, Vec<u8>)>,
}

impl View for StorageSnapshot {
    type V = Map<ModuleKey, Seq<u8>>;

    closed spec fn view(&self) -> Map<ModuleKey, Seq<u8>> {
        published(self.modules@)
    }
}

/// Where `k` was published last among the first `n` modules, no later one
/// has that identity.
proof fn lemma_last_published(modules: Seq<(ModuleId, Vec<u8>)>, k: ModuleKey, i: int)
    requires
        0 <= i < modules.len(),
        key_of(modules[i].0) == k,
        forall|j: int| i < j < modules.len() ==> key_of(#[trigger] modules[j].0) != k,
    ensures
        published(modules).contains_key(k),
        published(modules)[k] == modules[i].1@,
    decreases modules.len(),
{
    if i < modules.len() - 1 {
        let init = modules.drop_last();
        assert forall|j: int| i < j < init.len() implies key_of(#[trigger] init[j].0) != k by {
            assert(init[j] == modules[j]);
        }
        lemma_last_published(init, k, i);
    }
}

/// Where no module has identity `k`, storage holds nothing under it.
proof fn lemma_never_published(modules: Seq<(ModuleId, Vec<u8>)>, k: ModuleKey)
    requires
        forall|j: int| 0 <= j < modules.len() ==> key_of(#[trigger] modules[j].0) != k,
    ensures
        !published(modules).contains_key(k),
    decreases modules.len(),
{
    if modules.len() > 0 {
        let init = modules.drop_last();
        assert forall|j: int| 0 <= j < init.len() implies key_of(#[trigger] init[j].0) != k by {
            assert(init[j] == modules[j]);
        }
        lemma_never_published(init, k);
    }
}

impl StorageSnapshot {
    pub fn new() -> (r: StorageSnapshot)
        ensures
            r@ == Map::<ModuleKey, Seq<u8>>::empty(),
    {
        StorageSnapshot { modules: Vec::new() }
    }

    /// Stores `bytes` under `module_id`, in place of what was there.
    pub fn publish_or_overwrite_module(&mut self, module_id: ModuleId, bytes: Vec<u8>)
        ensures
            final(self)@ == old(self)@.insert(key_of(module_id), bytes@),
    {
        let ghost before = self.modules@;
        self.modules.push((module_id, bytes));
        proof {
            assert(self.modules@.drop_last() =~= before);
        }
    }

    /// The serialized module stored under `module_id`, if any.
    pub fn get_module(&self, module_id: &ModuleId) -> (r: Option<&Vec<u8>>)
        ensures
            r is Some <==> self@.contains_key(key_of(*module_id)),
            r matches Some(b) ==> b@ == self@[key_of(*module_id)],
    {
        let ghost k = key_of(*module_id);
        let mut i: usize = self.modules.len();
        while i > 0
            invariant
                i <= self.modules.len(),
                k == key_of(*module_id),
                forall|j: int| i <= j < self.modules.len() ==> key_of(#[trigger] self.modules@[j].0) != k,
            decreases i,
        {
            let entry = &self.modules[i - 1];
            if same_module(&entry.0, module_id) {
                proof {
                    assert(*entry == self.modules@[i - 1]);
                    lemma_last_published(self.modules@, k, i - 1);
                }
                return Some(&entry.1);
            }
            i = i - 1;
        }
        proof {
            lemma_never_published(self.modules@, k);
        }
        None
    }
}

/// The storage that every test starts from: each module of `modules`
/// published in order.
pub fn setup_test_storage(modules: &Vec<(ModuleId, Vec<u8>)>) -> (r: StorageSnapshot)
    ensures
        r@ == published(modules@),
{
    let mut storage = StorageSnapshot::new();
    let mut i: usize = 0;
    proof {
        assert(modules@.subrange(0, 0) =~= Seq::<(ModuleId, Vec<u8>)>::empty());
    }
    while i < modules.len()
        invariant
            i <= modules.len(),
            storage@ == published(modules@.subrange(0, i as int)),
        decreases modules.len() - i,
    {
        let entry = &modules[i];
        let id = ModuleId { address: entry.0.address, name: entry.0.name.clone() };
        let bytes = entry.1.clone();
        proof {
            assert(bytes@ =~= entry.1@);
            assert(modules@.subrange(0, i + 1).drop_last() =~= modules@.subrange(0, i as int));
        }
        storage.publish_or_overwrite_module(id, bytes);
        i = i + 1;
    }
    proof {
        assert(modules@.subrange(0, i as int) =~= modules@);
    }
    storage
}

} // verus!
