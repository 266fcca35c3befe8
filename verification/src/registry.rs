//! The resource registry and its single-resource operations.
//!
//! A resource is a singleton value addressed by a type key; the registry maps
//! each registered key to the one stored value and hands out an opaque
//! identifier handle (the registration index) for it.

use vstd::prelude::*;
use vstd::pervasive::VecAdditionalExecFns;

verus! {

/// Description of one resource in a batch call: the type key that identifies
/// it in the registry, and the value to store under that key (for batch-init,
/// the default value used only when the key is absent).
#[derive(Clone, Copy, PartialEq, Eq, Structural, Debug)]
pub struct ResourceSpec {
    pub type_id: u64,
    pub value: u64,
}

/// Mathematical model of a registry.
///
/// `types` lists the registered type keys in registration order (a key's
/// index in it is the key's identifier handle), `values` holds the stored
/// value of each key at the same index, and `log` records every write that
/// was performed against the store, in order: each construct-and-insert of
/// batch-init and each insert-or-overwrite appends the affected type key.
#[verifier::ext_equal]
pub ghost struct RegistryModel {
    pub types: Seq<u64>,
    pub values: Seq<u64>,
    pub log: Seq<u64>,
}

/// Whether all elements of `s` are pairwise distinct.
pub open spec fn seq_distinct(s: Seq<u64>) -> bool {
    forall|i: int, j: int| 0 <= i < j < s.len() ==> s[i] != s[j]
}

/// Index of the first occurrence of `t` in `s`; `s.len()` when `t` is absent.
pub open spec fn first_index(s: Seq<u64>, t: u64) -> int
    decreases s.len(),
{
    if s.len() == 0 {
        0
    } else if s[0] == t {
        0
    } else {
        1 + first_index(s.drop_first(), t)
    }
}

impl RegistryModel {
    /// Well-formedness: one value per key, and keys are unique.
    pub open spec fn wf(self) -> bool {
        &&& self.values.len() == self.types.len()
        &&& seq_distinct(self.types)
    }

    /// Whether a resource of type `t` is registered.
    pub open spec fn contains_type(self, t: u64) -> bool {
        self.types.contains(t)
    }

    /// The identifier handle of a registered type: its registration index.
    pub open spec fn handle_of(self, t: u64) -> int {
        first_index(self.types, t)
    }

    /// The value stored for a registered type.
    pub open spec fn value_of(self, t: u64) -> u64 {
        self.values[self.handle_of(t)]
    }

    /// The registry contents as a map from type key to stored value.
    pub open spec fn as_map(self) -> Map<u64, u64> {
        Map::new(|t: u64| self.contains_type(t), |t: u64| self.value_of(t))
    }

    /// The model of a freshly created registry.
    pub open spec fn empty() -> RegistryModel {
        RegistryModel { types: Seq::empty(), values: Seq::empty(), log: Seq::empty() }
    }
}

/// One insert-or-overwrite step: the value of `t` becomes `v`, whether or not
/// `t` was registered before; the handle of an already registered `t` is kept.
pub open spec fn spec_insert_one(m: RegistryModel, t: u64, v: u64) -> RegistryModel {
    if m.contains_type(t) {
        RegistryModel {
            types: m.types,
            values: m.values.update(m.handle_of(t), v),
            log: m.log.push(t),
        }
    } else {
        RegistryModel { types: m.types.push(t), values: m.values.push(v), log: m.log.push(t) }
    }
}

/// One init step: construct-and-insert `v` under `t` only when `t` is absent;
/// a present `t` is left entirely unchanged (no write, no log entry).
pub open spec fn spec_init_one(m: RegistryModel, t: u64, v: u64) -> RegistryModel {
    if m.contains_type(t) {
        m
    } else {
        RegistryModel { types: m.types.push(t), values: m.values.push(v), log: m.log.push(t) }
    }
}

/// The handle returned by one init step: the existing handle of a present
/// `t`, or the next free registration index for an absent one.
pub open spec fn spec_init_handle(m: RegistryModel, t: u64) -> int {
    if m.contains_type(t) {
        m.handle_of(t)
    } else {
        m.types.len() as int
    }
}

/// `first_index` finds the first occurrence of a present element and returns
/// the length for an absent one.
pub proof fn lemma_first_index(s: Seq<u64>, t: u64)
    ensures
        s.contains(t) ==> 0 <= first_index(s, t) < s.len() && s[first_index(s, t)] == t,
        s.contains(t) ==> forall|j: int| 0 <= j < first_index(s, t) ==> s[j] != t,
        !s.contains(t) ==> first_index(s, t) == s.len(),
    decreases s.len(),
{
    if s.len() == 0 {
    } else if s[0] == t {
    } else {
        lemma_first_index(s.drop_first(), t);
        assert(forall|j: int| 0 <= j < s.drop_first().len() ==> s.drop_first()[j] == s[j + 1]);
        if s.contains(t) {
            let k = choose|k: int| 0 <= k < s.len() && s[k] == t;
            assert(s.drop_first()[k - 1] == t);
            assert(s.drop_first().contains(t));
            assert forall|j: int| 0 <= j < first_index(s, t) implies s[j] != t by {
                if j > 0 {
                    assert(s.drop_first()[j - 1] == s[j]);
                }
            }
        } else {
            if s.drop_first().contains(t) {
                let k = choose|k: int| 0 <= k < s.drop_first().len() && s.drop_first()[k] == t;
                assert(s[k + 1] == t);
            }
        }
    }
}

/// Appending an element does not move the first occurrence of a present one,
/// and registers an absent one at the old length.
pub proof fn lemma_first_index_push(s: Seq<u64>, t: u64, x: u64)
    ensures
        s.contains(t) ==> first_index(s.push(x), t) == first_index(s, t),
        !s.contains(t) && x == t ==> first_index(s.push(x), t) == s.len(),
        s.push(x).contains(t) == (s.contains(t) || x == t),
    decreases s.len(),
{
    if s.len() == 0 {
        assert(s.push(x)[0] == x);
        if s.push(x).contains(t) && x != t {
            let k = choose|k: int| 0 <= k < s.push(x).len() && s.push(x)[k] == t;
            assert(false);
        }
    } else {
        lemma_first_index_push(s.drop_first(), t, x);
        assert(s.push(x).drop_first() =~= s.drop_first().push(x));
        assert(s.push(x)[0] == s[0]);
        if s[0] != t {
            if s.contains(t) {
                let k = choose|k: int| 0 <= k < s.len() && s[k] == t;
                assert(s.drop_first()[k - 1] == t);
                assert(s.drop_first().contains(t));
            } else {
                if s.drop_first().contains(t) {
                    let k = choose|k: int| 0 <= k < s.drop_first().len() && s.drop_first()[k]
                        == t;
                    assert(s[k + 1] == t);
                }
            }
        }
    }
}

/// Appending an element that is not yet present keeps the keys distinct.
pub proof fn lemma_distinct_push(s: Seq<u64>, x: u64)
    requires
        seq_distinct(s),
        !s.contains(x),
    ensures
        seq_distinct(s.push(x)),
{
    let p = s.push(x);
    assert forall|i: int, j: int| 0 <= i < j < p.len() implies p[i] != p[j] by {
        if j == s.len() {
            assert(s[i] == p[i]);
            if s[i] == x {
                assert(s.contains(x));
            }
        }
    }
}

/// The registry: the shared store of at-most-one-per-type resource values.
pub struct Registry {
    types: Vec<u64>,
    values: Vec<u64>,
    log: Vec<u64>,
}

impl View for Registry {
    type V = RegistryModel;

    closed spec fn view(&self) -> RegistryModel {
        RegistryModel { types: self.types@, values: self.values@, log: self.log@ }
    }
}

impl Registry {
    /// Well-formedness of the underlying store.
    pub open spec fn wf(&self) -> bool {
        self@.wf()
    }

    /// Creates an empty registry.
    pub fn new() -> (r: Registry)
        ensures
            r.wf(),
            r@ == RegistryModel::empty(),
    {
        let r = Registry { types: Vec::new(), values: Vec::new(), log: Vec::new() };
        proof {
            assert(r@ =~= RegistryModel::empty());
        }
        r
    }

    /// Looks up the handle of `t`, when `t` is registered.
    fn find(&self, t: u64) -> (r: Option<usize>)
        ensures
            match r {
                Some(h) => self@.contains_type(t) && h as int == self@.handle_of(t),
                None => !self@.contains_type(t),
            },
    {
        let n = self.types.len();
        let mut i: usize = 0;
        while i < n
            invariant
                n == self.types@.len(),
                0 <= i <= n,
                forall|j: int| 0 <= j < i ==> self.types@[j] != t,
            decreases n - i,
        {
            if self.types[i] == t {
                proof {
                    lemma_first_index(self@.types, t);
                    assert(self@.types[i as int] == t);
                    assert(self@.contains_type(t));
                    let f = first_index(self@.types, t);
                    if f < i {
                        assert(self@.types[f] != t);
                    }
                }
                return Some(i);
            }
            i += 1;
        }
        proof {
            if self@.contains_type(t) {
                let k = choose|k: int| 0 <= k < self@.types.len() && self@.types[k] == t;
                assert(false);
            }
        }
        None
    }

    /// Whether a resource of type `t` is registered.
    pub fn contains_resource(&self, t: u64) -> (b: bool)
        ensures
            b == self@.contains_type(t),
    {
        self.find(t).is_some()
    }

    /// Reads the value stored under `t`, when `t` is registered.
    pub fn resource(&self, t: u64) -> (r: Option<u64>)
        requires
            self.wf(),
        ensures
            self@.contains_type(t) ==> r == Some(self@.value_of(t)),
            !self@.contains_type(t) ==> r is None,
    {
        match self.find(t) {
            Some(h) => {
                proof {
                    lemma_first_index(self@.types, t);
                }
                Some(self.values[h])
            },
            None => None,
        }
    }

    /// The handle of `t`, when `t` is registered.
    pub fn resource_handle(&self, t: u64) -> (r: Option<usize>)
        ensures
            match r {
                Some(h) => self@.contains_type(t) && h as int == self@.handle_of(t),
                None => !self@.contains_type(t),
            },
    {
        self.find(t)
    }

    /// How many resource types are registered.
    pub fn len(&self) -> (n: usize)
        ensures
            n == self@.types.len(),
    {
        self.types.len()
    }

    /// The ordered record of the writes performed against the store: one type
    /// key per construct-and-insert or insert-or-overwrite, oldest first.
    pub fn log(&self) -> (l: &Vec<u64>)
        ensures
            l@ == self@.log,
    {
        &self.log
    }

    /// Insert-or-overwrite of one resource: after the call, `t` holds exactly
    /// `v`, whatever was stored before.
    pub fn insert_resource(&mut self, t: u64, v: u64)
        requires
            old(self).wf(),
        ensures
            final(self).wf(),
            final(self)@ == spec_insert_one(old(self)@, t, v),
    {
        proof {
            lemma_first_index(self@.types, t);
        }
        match self.find(t) {
            Some(h) => {
                self.values.set(h, v);
                self.log.push(t);
                proof {
                    assert(self@ =~= spec_insert_one(old(self)@, t, v));
                }
            },
            None => {
                self.types.push(t);
                self.values.push(v);
                self.log.push(t);
                proof {
                    lemma_distinct_push(old(self)@.types, t);
                    assert(self@ =~= spec_insert_one(old(self)@, t, v));
                }
            },
        }
    }

    /// Init of one resource: when `t` is absent, construct-and-insert the
    /// default value `v`; when present, change nothing.  Returns `t`'s handle.
    pub fn init_resource(&mut self, t: u64, v: u64) -> (h: usize)
        requires
            old(self).wf(),
        ensures
            final(self).wf(),
            final(self)@ == spec_init_one(old(self)@, t, v),
            h as int == spec_init_handle(old(self)@, t),
            h as int == final(self)@.handle_of(t),
            final(self)@.contains_type(t),
    {
        match self.find(t) {
            Some(h) => h,
            None => {
                let h = self.types.len();
                self.types.push(t);
                self.values.push(v);
                self.log.push(t);
                proof {
                    lemma_distinct_push(old(self)@.types, t);
                    lemma_first_index_push(old(self)@.types, t, t);
                    assert(self@ =~= spec_init_one(old(self)@, t, v));
                }
                h
            },
        }
    }
}

} // verus!
