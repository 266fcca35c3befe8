//! Batch operations on type-keyed singleton resources.
//!
//! A registry stores at most one resource value per type key.  This crate
//! adds the ability to initialize or insert a whole group of resources in a
//! single call instead of one call per resource: a fixed-arity tuple of
//! resource descriptions is walked left to right, and each element is handed
//! to the registry's native single-resource operation.
//!
//! The batch surface exists on three levels: directly on the registry, on a
//! chainable application wrapper, and on a deferred command queue whose
//! entries are replayed in enqueue order.

pub mod application;
pub mod batch;
pub mod commands;
pub mod laws;
pub mod registry;
pub mod tuples;
