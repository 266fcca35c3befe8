//! Batch-init and batch-insert over an ordered group of resources.
//!
//! A batch of arity N performs exactly N single-resource registry operations,
//! in left-to-right order of the group.  There is no partial-batch atomicity:
//! each element's operation completes on its own.

use vstd::prelude::*;

use crate::registry::{
    spec_init_one, spec_insert_one, lemma_first_index, lemma_first_index_push, Registry,
    RegistryModel, ResourceSpec,
};

verus! {

/// Largest group arity the batch surface supports.
pub const MAX_ARITY: usize = 16;

/// The registry contents after running batch-init over `s`, left to right.
pub open spec fn spec_init_batch(m: RegistryModel, s: Seq<ResourceSpec>) -> RegistryModel
    decreases s.len(),
{
    if s.len() == 0 {
        m
    } else {
        spec_init_batch(spec_init_one(m, s[0].type_id, s[0].value), s.drop_first())
    }
}

/// The registry contents after running batch-insert over `s`, left to right.
pub open spec fn spec_insert_batch(m: RegistryModel, s: Seq<ResourceSpec>) -> RegistryModel
    decreases s.len(),
{
    if s.len() == 0 {
        m
    } else {
        spec_insert_batch(spec_insert_one(m, s[0].type_id, s[0].value), s.drop_first())
    }
}

/// Batch-init: for each element in order, construct-and-insert its default
/// value when its type is absent and skip it when present.  Returns one
/// identifier handle per element, positionally aligned with the input.
pub fn init_batch(registry: &mut Registry, specs: &Vec<ResourceSpec>) -> (handles: Vec<usize>)
    requires
        old(registry).wf(),
        1 <= specs@.len() <= MAX_ARITY,
    ensures
        final(registry).wf(),
        final(registry)@ == spec_init_batch(old(registry)@, specs@),
        handles@.len() == specs@.len(),
        forall|i: int|
            0 <= i < specs@.len()
                ==> #[trigger] handles@[i] as int
                == final(registry)@.handle_of(specs@[i].type_id),
        forall|i: int|
            0 <= i < specs@.len()
                ==> final(registry)@.contains_type(#[trigger] specs@[i].type_id),
{
    let ghost m0 = registry@;
    let mut handles: Vec<usize> = Vec::new();
    let n = specs.len();
    let mut i: usize = 0;
    proof {
        assert(specs@.skip(0) =~= specs@);
    }
    while i < n
        invariant
            n == specs@.len(),
            0 <= i <= n,
            registry.wf(),
            spec_init_batch(registry@, specs@.skip(i as int)) == spec_init_batch(m0, specs@),
            handles@.len() == i,
            forall|j: int|
                0 <= j < i ==> registry@.contains_type(#[trigger] specs@[j].type_id),
            forall|j: int|
                0 <= j < i ==> #[trigger] handles@[j] as int == registry@.handle_of(
                    specs@[j].type_id,
                ),
        decreases n - i,
    {
        let s = specs[i];
        let ghost before = registry@;
        let h = registry.init_resource(s.type_id, s.value);
        handles.push(h);
        proof {
            assert(specs@.skip(i as int)[0] == specs@[i as int]);
            assert(specs@.skip(i as int).drop_first() =~= specs@.skip(i as int + 1));
            assert(spec_init_batch(before, specs@.skip(i as int)) == spec_init_batch(
                registry@,
                specs@.skip(i as int + 1),
            ));
            lemma_first_index(before.types, s.type_id);
            lemma_first_index_push(before.types, s.type_id, s.type_id);
            assert forall|j: int| 0 <= j < i + 1 implies registry@.contains_type(
                #[trigger] specs@[j].type_id,
            ) && handles@[j] as int == registry@.handle_of(specs@[j].type_id) by {
                if j < i {
                    lemma_first_index_push(before.types, specs@[j].type_id, s.type_id);
                }
            }
        }
        i += 1;
    }
    proof {
        assert(specs@.skip(n as int) =~= Seq::<ResourceSpec>::empty());
    }
    handles
}

/// Batch-insert: for each element in order, insert-or-overwrite its value
/// under its type, whatever was stored before.
pub fn insert_batch(registry: &mut Registry, specs: &Vec<ResourceSpec>)
    requires
        old(registry).wf(),
        1 <= specs@.len() <= MAX_ARITY,
    ensures
        final(registry).wf(),
        final(registry)@ == spec_insert_batch(old(registry)@, specs@),
{
    let ghost m0 = registry@;
    let n = specs.len();
    let mut i: usize = 0;
    proof {
        assert(specs@.skip(0) =~= specs@);
    }
    while i < n
        invariant
            n == specs@.len(),
            0 <= i <= n,
            registry.wf(),
            spec_insert_batch(registry@, specs@.skip(i as int)) == spec_insert_batch(m0, specs@),
        decreases n - i,
    {
        let s = specs[i];
        let ghost before = registry@;
        registry.insert_resource(s.type_id, s.value);
        proof {
            assert(specs@.skip(i as int)[0] == specs@[i as int]);
            assert(specs@.skip(i as int).drop_first() =~= specs@.skip(i as int + 1));
            assert(spec_insert_batch(before, specs@.skip(i as int)) == spec_insert_batch(
                registry@,
                specs@.skip(i as int + 1),
            ));
        }
        i += 1;
    }
    proof {
        assert(specs@.skip(n as int) =~= Seq::<ResourceSpec>::empty());
    }
}

} // verus!
