//! The application wrapper: a chainable surface over the registry.
//!
//! The application owns the registry for the lifetime of the process and
//! hands itself back from every batch call, so that calls can be chained.
//! On this surface the identifier handles of batch-init are discarded.

use vstd::prelude::*;

use crate::batch::{spec_init_batch, spec_insert_batch};
use crate::registry::{Registry, RegistryModel};
use crate::tuples::{InitResources, InsertResources, ResourceTuple};

verus! {

/// An application owning the shared resource registry.
pub struct App {
    pub registry: Registry,
}

impl App {
    /// Creates an application with an empty registry.
    pub fn new() -> (a: App)
        ensures
            a.registry.wf(),
            a.registry@ == RegistryModel::empty(),
    {
        App { registry: Registry::new() }
    }

    /// Chainable batch-init: ensures each resource of the group exists,
    /// constructing defaults for absent ones, and returns the application.
    pub fn init_resources<R: InitResources>(self, resources: R) -> (a: App)
        requires
            self.registry.wf(),
        ensures
            a.registry.wf(),
            a.registry@ == spec_init_batch(self.registry@, resources.elems()),
    {
        let mut app = self;
        let _ = resources.init_resources(&mut app.registry);
        app
    }

    /// Chainable batch-insert: writes each resource of the group into the
    /// registry in group order, overwriting colliding types, and returns the
    /// application.
    pub fn insert_resources<R: InsertResources>(self, resources: R) -> (a: App)
        requires
            self.registry.wf(),
        ensures
            a.registry.wf(),
            a.registry@ == spec_insert_batch(self.registry@, resources.elems()),
    {
        let mut app = self;
        resources.insert_resources(&mut app.registry);
        app
    }
}

} // verus!
