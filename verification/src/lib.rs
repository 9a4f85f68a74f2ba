//! Resource lifecycle core: a sum-typed configuration model with
//! merge/diff/partial semantics, a concurrency-safe action-state
//! registry, and the declarative-sync status derivation built on both.

pub mod builder;
pub mod config;
pub mod registry;
pub mod resource;
pub mod sync;
