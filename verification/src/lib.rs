//! Checkpoint indexing core: the start-checkpoint resolver, the row
//! transformers that turn a checkpoint into typed rows, and the batched
//! idempotent committer that writes those rows in size-bounded chunks.
//!
//! The surrounding process (checkpoint streaming, the relational store, the
//! RPC client used to learn the latest checkpoint) lives outside this crate;
//! this library holds the decisions and transformations, each with a proved
//! contract.

pub mod checkpoint;
pub mod handlers;
pub mod resolver;
pub mod rows;
pub mod store;
