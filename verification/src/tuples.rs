//! The fixed-arity tuple surface for batch operations.
//!
//! One implementation of the capability traits exists per tuple arity from 1
//! through `MAX_ARITY`, mapping tuple position i to registry operation i; the
//! empty tuple and larger tuples are not offered at all, so a batch call on
//! them is rejected before anything runs.

use vstd::prelude::*;

use crate::batch::{init_batch, insert_batch, spec_init_batch, spec_insert_batch, MAX_ARITY};
use crate::registry::{Registry, ResourceSpec};

verus! {

/// A fixed-arity ordered group of resource descriptions.
///
/// Implementations exist exactly for the tuples of `ResourceSpec` of arity 1
/// through `MAX_ARITY`; `elems` lists the elements in tuple order.
pub trait ResourceTuple: Sized {
    /// The elements of the group, in tuple order.
    spec fn elems(self) -> Seq<ResourceSpec>;

    /// Every implementation covers one arity between 1 and `MAX_ARITY`.
    proof fn arity_in_range(self)
        ensures
            1 <= self.elems().len() <= MAX_ARITY,
    ;

    /// The elements as a vector, in tuple order.
    fn into_specs(self) -> (v: Vec<ResourceSpec>)
        ensures
            v@ == self.elems(),
    ;
}

/// Groups of resources that can be batch-initialized in the registry
/// together: each absent element type gets its default value constructed and
/// inserted, each present one is left unchanged, and one identifier handle
/// per element comes back, positionally aligned with the group.
pub trait InitResources: ResourceTuple {
    fn init_resources(self, registry: &mut Registry) -> (handles: Vec<usize>)
        requires
            old(registry).wf(),
        ensures
            final(registry).wf(),
            final(registry)@ == spec_init_batch(old(registry)@, self.elems()),
            handles@.len() == self.elems().len(),
            forall|i: int|
                0 <= i < self.elems().len()
                    ==> #[trigger] handles@[i] as int
                    == final(registry)@.handle_of(self.elems()[i].type_id),
            forall|i: int|
                0 <= i < self.elems().len()
                    ==> final(registry)@.contains_type(#[trigger] self.elems()[i].type_id),
    ;
}

/// Groups of resources that can be batch-inserted into the registry
/// together: each element's value is written under its type in group order,
/// overwriting any existing entry of that type.
pub trait InsertResources: ResourceTuple {
    fn insert_resources(self, registry: &mut Registry)
        requires
            old(registry).wf(),
        ensures
            final(registry).wf(),
            final(registry)@ == spec_insert_batch(old(registry)@, self.elems()),
    ;
}

impl<T: ResourceTuple> InitResources for T {
    fn init_resources(self, registry: &mut Registry) -> (handles: Vec<usize>) {
        proof {
            self.arity_in_range();
        }
        let specs = self.into_specs();
        init_batch(registry, &specs)
    }
}

impl<T: ResourceTuple> InsertResources for T {
    fn insert_resources(self, registry: &mut Registry) {
        proof {
            self.arity_in_range();
        }
        let specs = self.into_specs();
        insert_batch(registry, &specs)
    }
}

impl ResourceTuple for (ResourceSpec,) {
    open spec fn elems(self) -> Seq<ResourceSpec> {
        seq![self.0]
    }

    proof fn arity_in_range(self) {
    }

    fn into_specs(self) -> (v: Vec<ResourceSpec>) {
        let mut v: Vec<ResourceSpec> = Vec::new();
        v.push(self.0);
        proof {
            assert(v@ =~= self.elems());
        }
        v
    }
}

impl ResourceTuple for (ResourceSpec, ResourceSpec) {
    open spec fn elems(self) -> Seq<ResourceSpec> {
        seq![self.0, self.1]
    }

    proof fn arity_in_range(self) {
    }

    fn into_specs(self) -> (v: Vec<ResourceSpec>) {
        let mut v: Vec<ResourceSpec> = Vec::new();
        v.push(self.0);
        v.push(self.1);
        proof {
            assert(v@ =~= self.elems());
        }
        v
    }
}

impl ResourceTuple for (ResourceSpec, ResourceSpec, ResourceSpec) {
    open spec fn elems(self) -> Seq<ResourceSpec> {
        seq![self.0, self.1, self.2]
    }

    proof fn arity_in_range(self) {
    }

    fn into_specs(self) -> (v: Vec<ResourceSpec>) {
        let mut v: Vec<ResourceSpec> = Vec::new();
        v.push(self.0);
        v.push(self.1);
        v.push(self.2);
        proof {
            assert(v@ =~= self.elems());
        }
        v
    }
}

impl ResourceTuple for (ResourceSpec, ResourceSpec, ResourceSpec, ResourceSpec) {
    open spec fn elems(self) -> Seq<ResourceSpec> {
        seq![self.0, self.1, self.2, self.3]
    }

    proof fn arity_in_range(self) {
    }

    fn into_specs(self) -> (v: Vec<ResourceSpec>) {
        let mut v: Vec<ResourceSpec> = Vec::new();
        v.push(self.0);
        v.push(self.1);
        v.push(self.2);
        v.push(self.3);
        proof {
            assert(v@ =~= self.elems());
        }
        v
    }
}

impl ResourceTuple for (ResourceSpec, ResourceSpec, ResourceSpec, ResourceSpec, ResourceSpec) {
    open spec fn elems(self) -> Seq<ResourceSpec> {
        seq![self.0, self.1, self.2, self.3, self.4]
    }

    proof fn arity_in_range(self) {
    }

    fn into_specs(self) -> (v: Vec<ResourceSpec>) {
        let mut v: Vec<ResourceSpec> = Vec::new();
        v.push(self.0);
        v.push(self.1);
        v.push(self.2);
        v.push(self.3);
        v.push(self.4);
        proof {
            assert(v@ =~= self.elems());
        }
        v
    }
}

impl ResourceTuple for (ResourceSpec, ResourceSpec, ResourceSpec, ResourceSpec, ResourceSpec, ResourceSpec) {
    open spec fn elems(self) -> Seq<ResourceSpec> {
        seq![self.0, self.1, self.2, self.3, self.4, self.5]
    }

    proof fn arity_in_range(self) {
    }

    fn into_specs(self) -> (v: Vec<ResourceSpec>) {
        let mut v: Vec<ResourceSpec> = Vec::new();
        v.push(self.0);
        v.push(self.1);
        v.push(self.2);
        v.push(self.3);
        v.push(self.4);
        v.push(self.5);
        proof {
            assert(v@ =~= self.elems());
        }
        v
    }
}

impl ResourceTuple for (ResourceSpec, ResourceSpec, ResourceSpec, ResourceSpec, ResourceSpec, ResourceSpec, ResourceSpec) {
    open spec fn elems(self) -> Seq<ResourceSpec> {
        seq![self.0, self.1, self.2, self.3, self.4, self.5, self.6]
    }

    proof fn arity_in_range(self) {
    }

    fn into_specs(self) -> (v: Vec<ResourceSpec>) {
        let mut v: Vec<ResourceSpec> = Vec::new();
        v.push(self.0);
        v.push(self.1);
        v.push(self.2);
        v.push(self.3);
        v.push(self.4);
        v.push(self.5);
        v.push(self.6);
        proof {
            assert(v@ =~= self.elems());
        }
        v
    }
}

impl ResourceTuple for (ResourceSpec, ResourceSpec, ResourceSpec, ResourceSpec, ResourceSpec, ResourceSpec, ResourceSpec, ResourceSpec) {
    open spec fn elems(self) -> Seq<ResourceSpec> {
        seq![self.0, self.1, self.2, self.3, self.4, self.5, self.6, self.7]
    }

    proof fn arity_in_range(self) {
    }

    fn into_specs(self) -> (v: Vec<ResourceSpec>) {
        let mut v: Vec<ResourceSpec> = Vec::new();
        v.push(self.0);
        v.push(self.1);
        v.push(self.2);
        v.push(self.3);
        v.push(self.4);
        v.push(self.5);
        v.push(self.6);
        v.push(self.7);
        proof {
            assert(v@ =~= self.elems());
        }
        v
    }
}

impl ResourceTuple for (ResourceSpec, ResourceSpec, ResourceSpec, ResourceSpec, ResourceSpec, ResourceSpec, ResourceSpec, ResourceSpec, ResourceSpec) {
    open spec fn elems(self) -> Seq<ResourceSpec> {
        seq![self.0, self.1, self.2, self.3, self.4, self.5, self.6, self.7, self.8]
    }

    proof fn arity_in_range(self) {
    }

    fn into_specs(self) -> (v: Vec<ResourceSpec>) {
        let mut v: Vec<ResourceSpec> = Vec::new();
        v.push(self.0);
        v.push(self.1);
        v.push(self.2);
        v.push(self.3);
        v.push(self.4);
        v.push(self.5);
        v.push(self.6);
        v.push(self.7);
        v.push(self.8);
        proof {
            assert(v@ =~= self.elems());
        }
        v
    }
}

impl ResourceTuple for (ResourceSpec, ResourceSpec, ResourceSpec, ResourceSpec, ResourceSpec, ResourceSpec, ResourceSpec, ResourceSpec, ResourceSpec, ResourceSpec) {
    open spec fn elems(self) -> Seq<ResourceSpec> {
        seq![self.0, self.1, self.2, self.3, self.4, self.5, self.6, self.7, self.8, self.9]
    }

    proof fn arity_in_range(self) {
    }

    fn into_specs(self) -> (v: Vec<ResourceSpec>) {
        let mut v: Vec<ResourceSpec> = Vec::new();
        v.push(self.0);
        v.push(self.1);
        v.push(self.2);
        v.push(self.3);
        v.push(self.4);
        v.push(self.5);
        v.push(self.6);
        v.push(self.7);
        v.push(self.8);
        v.push(self.9);
        proof {
            assert(v@ =~= self.elems());
        }
        v
    }
}

impl ResourceTuple for (ResourceSpec, ResourceSpec, ResourceSpec, ResourceSpec, ResourceSpec, ResourceSpec, ResourceSpec, ResourceSpec, ResourceSpec, ResourceSpec, ResourceSpec) {
    open spec fn elems(self) -> Seq<ResourceSpec> {
        seq![self.0, self.1, self.2, self.3, self.4, self.5, self.6, self.7, self.8, self.9, self.10]
    }

    proof fn arity_in_range(self) {
    }

    fn into_specs(self) -> (v: Vec<ResourceSpec>) {
        let mut v: Vec<ResourceSpec> = Vec::new();
        v.push(self.0);
        v.push(self.1);
        v.push(self.2);
        v.push(self.3);
        v.push(self.4);
        v.push(self.5);
        v.push(self.6);
        v.push(self.7);
        v.push(self.8);
        v.push(self.9);
        v.push(self.10);
        proof {
            assert(v@ =~= self.elems());
        }
        v
    }
}

impl ResourceTuple for (ResourceSpec, ResourceSpec, ResourceSpec, ResourceSpec, ResourceSpec, ResourceSpec, ResourceSpec, ResourceSpec, ResourceSpec, ResourceSpec, ResourceSpec, ResourceSpec) {
    open spec fn elems(self) -> Seq<ResourceSpec> {
        seq![self.0, self.1, self.2, self.3, self.4, self.5, self.6, self.7, self.8, self.9, self.10, self.11]
    }

    proof fn arity_in_range(self) {
    }

    fn into_specs(self) -> (v: Vec<ResourceSpec>) {
        let mut v: Vec<ResourceSpec> = Vec::new();
        v.push(self.0);
        v.push(self.1);
        v.push(self.2);
        v.push(self.3);
        v.push(self.4);
        v.push(self.5);
        v.push(self.6);
        v.push(self.7);
        v.push(self.8);
        v.push(self.9);
        v.push(self.10);
        v.push(self.11);
        proof {
            assert(v@ =~= self.elems());
        }
        v
    }
}

impl ResourceTuple for (ResourceSpec, ResourceSpec, ResourceSpec, ResourceSpec, ResourceSpec, ResourceSpec, ResourceSpec, ResourceSpec, ResourceSpec, ResourceSpec, ResourceSpec, ResourceSpec, ResourceSpec) {
    open spec fn elems(self) -> Seq<ResourceSpec> {
        seq![self.0, self.1, self.2, self.3, self.4, self.5, self.6, self.7, self.8, self.9, self.10, self.11, self.12]
    }

    proof fn arity_in_range(self) {
    }

    fn into_specs(self) -> (v: Vec<ResourceSpec>) {
        let mut v: Vec<ResourceSpec> = Vec::new();
        v.push(self.0);
        v.push(self.1);
        v.push(self.2);
        v.push(self.3);
        v.push(self.4);
        v.push(self.5);
        v.push(self.6);
        v.push(self.7);
        v.push(self.8);
        v.push(self.9);
        v.push(self.10);
        v.push(self.11);
        v.push(self.12);
        proof {
            assert(v@ =~= self.elems());
        }
        v
    }
}

impl ResourceTuple for (ResourceSpec, ResourceSpec, ResourceSpec, ResourceSpec, ResourceSpec, ResourceSpec, ResourceSpec, ResourceSpec, ResourceSpec, ResourceSpec, ResourceSpec, ResourceSpec, ResourceSpec, ResourceSpec) {
    open spec fn elems(self) -> Seq<ResourceSpec> {
        seq![self.0, self.1, self.2, self.3, self.4, self.5, self.6, self.7, self.8, self.9, self.10, self.11, self.12, self.13]
    }

    proof fn arity_in_range(self) {
    }

    fn into_specs(self) -> (v: Vec<ResourceSpec>) {
        let mut v: Vec<ResourceSpec> = Vec::new();
        v.push(self.0);
        v.push(self.1);
        v.push(self.2);
        v.push(self.3);
        v.push(self.4);
        v.push(self.5);
        v.push(self.6);
        v.push(self.7);
        v.push(self.8);
        v.push(self.9);
        v.push(self.10);
        v.push(self.11);
        v.push(self.12);
        v.push(self.13);
        proof {
            assert(v@ =~= self.elems());
        }
        v
    }
}

impl ResourceTuple for (ResourceSpec, ResourceSpec, ResourceSpec, ResourceSpec, ResourceSpec, ResourceSpec, ResourceSpec, ResourceSpec, ResourceSpec, ResourceSpec, ResourceSpec, ResourceSpec, ResourceSpec, ResourceSpec, ResourceSpec) {
    open spec fn elems(self) -> Seq<ResourceSpec> {
        seq![self.0, self.1, self.2, self.3, self.4, self.5, self.6, self.7, self.8, self.9, self.10, self.11, self.12, self.13, self.14]
    }

    proof fn arity_in_range(self) {
    }

    fn into_specs(self) -> (v: Vec<ResourceSpec>) {
        let mut v: Vec<ResourceSpec> = Vec::new();
        v.push(self.0);
        v.push(self.1);
        v.push(self.2);
        v.push(self.3);
        v.push(self.4);
        v.push(self.5);
        v.push(self.6);
        v.push(self.7);
        v.push(self.8);
        v.push(self.9);
        v.push(self.10);
        v.push(self.11);
        v.push(self.12);
        v.push(self.13);
        v.push(self.14);
        proof {
            assert(v@ =~= self.elems());
        }
        v
    }
}

impl ResourceTuple for (ResourceSpec, ResourceSpec, ResourceSpec, ResourceSpec, ResourceSpec, ResourceSpec, ResourceSpec, ResourceSpec, ResourceSpec, ResourceSpec, ResourceSpec, ResourceSpec, ResourceSpec, ResourceSpec, ResourceSpec, ResourceSpec) {
    open spec fn elems(self) -> Seq<ResourceSpec> {
        seq![self.0, self.1, self.2, self.3, self.4, self.5, self.6, self.7, self.8, self.9, self.10, self.11, self.12, self.13, self.14, self.15]
    }

    proof fn arity_in_range(self) {
    }

    fn into_specs(self) -> (v: Vec<ResourceSpec>) {
        let mut v: Vec<ResourceSpec> = Vec::new();
        v.push(self.0);
        v.push(self.1);
        v.push(self.2);
        v.push(self.3);
        v.push(self.4);
        v.push(self.5);
        v.push(self.6);
        v.push(self.7);
        v.push(self.8);
        v.push(self.9);
        v.push(self.10);
        v.push(self.11);
        v.push(self.12);
        v.push(self.13);
        v.push(self.14);
        v.push(self.15);
        proof {
            assert(v@ =~= self.elems());
        }
        v
    }
}

impl Registry {
    /// Batch-init of a group of resources directly on the registry.
    pub fn init_resources<R: InitResources>(&mut self, resources: R) -> (handles: Vec<usize>)
        requires
            old(self).wf(),
        ensures
            final(self).wf(),
            final(self)@ == spec_init_batch(old(self)@, resources.elems()),
            handles@.len() == resources.elems().len(),
            forall|i: int|
                0 <= i < resources.elems().len()
                    ==> #[trigger] handles@[i] as int
                    == final(self)@.handle_of(resources.elems()[i].type_id),
            forall|i: int|
                0 <= i < resources.elems().len()
                    ==> final(self)@.contains_type(#[trigger] resources.elems()[i].type_id),
    {
        resources.init_resources(self)
    }

    /// Batch-insert of a group of resources directly on the registry.
    pub fn insert_resources<R: InsertResources>(&mut self, resources: R)
        requires
            old(self).wf(),
        ensures
            final(self).wf(),
            final(self)@ == spec_insert_batch(old(self)@, resources.elems()),
    {
        resources.insert_resources(self)
    }
}

} // verus!
