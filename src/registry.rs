use vstd::prelude::*;

use crate::module_id::ModuleId;

verus! {

/// Why the registry refused an operation. Both are protocol violations by the
/// caller: an id registered twice without being unregistered in between, or an
/// id unregistered that nobody registered.
#[derive(Copy, Clone, Debug, PartialEq, Eq, Structural)]
pub enum RegistryError {
    /// The id is already registered.
    DuplicateId(ModuleId),
    /// The id is not registered.
    UnknownId(ModuleId),
}

/// The central directory of all active modules: each registered id maps to the
/// descriptor handle of the live module that registered it.
///
/// The registry never owns what a descriptor refers to; `D` is whatever handle
/// the host uses for a loaded module's entry points.
pub struct ModuleRegistry<D> {
    /// One entry per registered module, ids pairwise distinct.
    modules: Vec<(ModuleId, D)>,
    /// The directory that `modules` represents.
    directory: Ghost<Map<ModuleId, D>>,
}

impl<D> View for ModuleRegistry<D> {
    type V = Map<ModuleId, D>;

    closed spec fn view(&self) -> Map<ModuleId, D> {
        self.directory@
    }
}

/// The entries of `s` carry pairwise distinct ids.
pub open spec fn distinct_ids<D>(s: Seq<(ModuleId, D)>) -> bool {
    forall|k: int, l: int| 0 <= k < s.len() && 0 <= l < s.len() && k != l ==> #[trigger] s[k].0 != #[trigger] s[l].0
}

/// `s` lists exactly the pairs of `m`, one entry per key.
pub open spec fn lists_exactly<D>(s: Seq<(ModuleId, D)>, m: Map<ModuleId, D>) -> bool {
    &&& distinct_ids(s)
    &&& forall|k: int| 0 <= k < s.len() ==> #[trigger] m.contains_key(s[k].0) && m[s[k].0] == s[k].1
    &&& forall|id: ModuleId| #[trigger] m.contains_key(id) ==> exists|k: int| 0 <= k < s.len() && s[k].0 == id
}

impl<D> ModuleRegistry<D> {
    /// The representation invariant: the entry list holds exactly the directory.
    pub closed spec fn wf(&self) -> bool {
        lists_exactly(self.modules@, self.directory@)
    }

    /// An empty registry.
    pub fn new() -> (r: Self)
        ensures
            r.wf(),
            r@ == Map::<ModuleId, D>::empty(),
    {
        ModuleRegistry { modules: Vec::new(), directory: Ghost(Map::empty()) }
    }

    /// The index of the entry registered under `id`, if any.
    fn position(&self, id: ModuleId) -> (r: Option<usize>)
        requires
            self.wf(),
        ensures
            match r {
                Some(i) => i < self.modules@.len() && self.modules@[i as int].0 == id,
                None => !self@.contains_key(id),
            },
    {
        let mut i: usize = 0;
        while i < self.modules.len()
            invariant
                i <= self.modules@.len(),
                forall|j: int| 0 <= j < i ==> self.modules@[j].0 != id,
            decreases self.modules@.len() - i,
        {
            if self.modules[i].0 == id {
                return Some(i);
            }
            i = i + 1;
        }
        None
    }

    /// Whether a module is registered under `id`.
    pub fn contains(&self, id: ModuleId) -> (r: bool)
        requires
            self.wf(),
        ensures
            r == self@.contains_key(id),
    {
        self.position(id).is_some()
    }

    /// Registers `module` under `id`. Refused, with the registry unchanged, when
    /// `id` is already registered.
    pub fn register(&mut self, id: ModuleId, module: D) -> (r: Result<(), RegistryError>)
        requires
            old(self).wf(),
        ensures
            final(self).wf(),
            old(self)@.contains_key(id) ==> r == Err::<(), RegistryError>(
                RegistryError::DuplicateId(id),
            ) && final(self)@ == old(self)@,
            !old(self)@.contains_key(id) ==> r is Ok && final(self)@ == old(self)@.insert(
                id,
                module,
            ),
    {
        if self.position(id).is_some() {
            return Err(RegistryError::DuplicateId(id));
        }
        let ghost before = self.modules@;
        self.modules.push((id, module));
        self.directory = Ghost(self.directory@.insert(id, module));
        proof {
            let s = self.modules@;
            let m = self.directory@;
            assert forall|k: int| 0 <= k < s.len() implies #[trigger] m.contains_key(s[k].0)
                && m[s[k].0] == s[k].1 by {
                if k < before.len() {
                    assert(s[k] == before[k]);
                }
            }
            assert forall|x: ModuleId| #[trigger] m.contains_key(x) implies exists|k: int|
                0 <= k < s.len() && s[k].0 == x by {
                if x == id {
                    assert(s[s.len() - 1].0 == x);
                } else {
                    let k = choose|k: int| 0 <= k < before.len() && before[k].0 == x;
                    assert(s[k] == before[k]);
                }
            }
            assert forall|k: int, l: int|
                0 <= k < s.len() && 0 <= l < s.len() && k != l implies #[trigger] s[k].0
                != #[trigger] s[l].0 by {
                if k < before.len() && l < before.len() {
                    assert(s[k] == before[k] && s[l] == before[l]);
                } else if k < before.len() {
                    assert(s[k] == before[k]);
                } else {
                    assert(s[l] == before[l]);
                }
            }
        }
        Ok(())
    }

    /// Removes the registration of `id`. Refused, with the registry unchanged,
    /// when `id` is not registered.
    pub fn unregister(&mut self, id: ModuleId) -> (r: Result<(), RegistryError>)
        requires
            old(self).wf(),
        ensures
            final(self).wf(),
            old(self)@.contains_key(id) ==> r is Ok && final(self)@ == old(self)@.remove(id),
            !old(self)@.contains_key(id) ==> r == Err::<(), RegistryError>(
                RegistryError::UnknownId(id),
            ) && final(self)@ == old(self)@,
    {
        match self.position(id) {
            None => Err(RegistryError::UnknownId(id)),
            Some(i) => {
                let ghost before = self.modules@;
                let ghost old_map = self.directory@;
                self.modules.remove(i);
                self.directory = Ghost(self.directory@.remove(id));
                proof {
                    let s = self.modules@;
                    let m = self.directory@;
                    assert forall|k: int| 0 <= k < s.len() implies #[trigger] s[k] == if k
                        < i {
                        before[k]
                    } else {
                        before[k + 1]
                    } by {}
                    assert forall|k: int| 0 <= k < s.len() implies #[trigger] m.contains_key(
                        s[k].0,
                    ) && m[s[k].0] == s[k].1 by {
                        if k < i {
                            assert(before[k].0 != before[i as int].0);
                        } else {
                            assert(before[k + 1].0 != before[i as int].0);
                        }
                    }
                    assert forall|x: ModuleId| #[trigger] m.contains_key(x) implies exists|k: int|
                        0 <= k < s.len() && s[k].0 == x by {
                        assert(old_map.contains_key(x));
                        let j = choose|j: int| 0 <= j < before.len() && before[j].0 == x;
                        if j < i {
                            assert(s[j] == before[j]);
                        } else {
                            assert(s[j - 1] == before[j]);
                        }
                    }
                    assert forall|k: int, l: int|
                        0 <= k < s.len() && 0 <= l < s.len() && k != l implies #[trigger] s[k].0
                        != #[trigger] s[l].0 by {
                        let k2 = if k < i { k } else { k + 1 };
                        let l2 = if l < i { l } else { l + 1 };
                        assert(s[k] == before[k2] && s[l] == before[l2]);
                    }
                }
                Ok(())
            },
        }
    }

    /// The descriptor registered under `id`, or `None` when `id` is not
    /// registered.
    pub fn get_raw(&self, id: ModuleId) -> (r: Option<D>) where D: Copy
        requires
            self.wf(),
        ensures
            r == if self@.contains_key(id) {
                Some(self@[id])
            } else {
                None::<D>
            },
    {
        match self.position(id) {
            Some(i) => Some(self.modules[i].1),
            None => None,
        }
    }

    /// Finalization pass: empties the registry and hands back every registration
    /// it held, each exactly once, so that the caller shuts each module down.
    /// On an empty registry nothing is handed back.
    pub fn shutdown(&mut self) -> (r: Vec<(ModuleId, D)>)
        requires
            old(self).wf(),
        ensures
            final(self).wf(),
            final(self)@ == Map::<ModuleId, D>::empty(),
            lists_exactly(r@, old(self)@),
            r@.len() == old(self)@.len(),
            old(self)@ == Map::<ModuleId, D>::empty() ==> r@.len() == 0,
    {
        let mut taken: Vec<(ModuleId, D)> = Vec::new();
        std::mem::swap(&mut taken, &mut self.modules);
        let ghost before = self.directory@;
        self.directory = Ghost(Map::empty());
        proof {
            let ids = taken@.map_values(|e: (ModuleId, D)| e.0);
            assert forall|k: int, l: int|
                0 <= k < ids.len() && 0 <= l < ids.len() && k != l implies ids[k] != ids[l] by {
                assert(taken@[k].0 != taken@[l].0);
            }
            assert(ids.no_duplicates());
            ids.unique_seq_to_set();
            assert forall|x: ModuleId| #[trigger] ids.to_set().contains(x) == before.dom().contains(
                x,
            ) by {
                if before.contains_key(x) {
                    let k = choose|k: int| 0 <= k < taken@.len() && taken@[k].0 == x;
                    assert(ids[k] == x);
                }
                if ids.to_set().contains(x) {
                    let k = choose|k: int| 0 <= k < ids.len() && ids[k] == x;
                    assert(before.contains_key(taken@[k].0));
                }
            }
            assert(ids.to_set() =~= before.dom());
            if before == Map::<ModuleId, D>::empty() && taken@.len() > 0 {
                assert(before.contains_key(taken@[0].0));
            }
        }
        taken
    }
}

impl<D> Default for ModuleRegistry<D> {
    fn default() -> (r: Self)
        ensures
            r.wf(),
            r@ == Map::<ModuleId, D>::empty(),
    {
        ModuleRegistry::new()
    }
}

/// Registering two distinct ids one after the other keeps both registrations:
/// looking up either id gives exactly the descriptor registered under it.
pub proof fn lemma_distinct_registrations_kept<D>(
    m: Map<ModuleId, D>,
    a: ModuleId,
    da: D,
    b: ModuleId,
    db: D,
)
    requires
        a != b,
        !m.contains_key(a),
        !m.contains_key(b),
    ensures
        !m.insert(a, da).contains_key(b),
        m.insert(a, da).insert(b, db).contains_key(a),
        m.insert(a, da).insert(b, db)[a] == da,
        m.insert(a, da).insert(b, db).contains_key(b),
        m.insert(a, da).insert(b, db)[b] == db,
{
}

/// Once an id is unregistered, a lookup of it reports absence.
pub proof fn lemma_unregistered_is_absent<D>(m: Map<ModuleId, D>, id: ModuleId)
    ensures
        !m.remove(id).contains_key(id),
{
}

} // verus!
