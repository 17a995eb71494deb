//! Deterministic block-execution pipeline of a blockchain node.
//!
//! Given a finalized, ordered batch of deploys and a starting global-state
//! root, the library applies each deploy in strict order against a scratch
//! overlay, threads the resulting state-root digest forward, records one
//! execution result per deploy, writes audit checksums into a reserved
//! registry key of global state, and, on era-ending blocks, runs the
//! validator-rotation step before flushing the overlay to durable storage.
//!
//! The execution engine and the global state store are collaborators of this
//! pipeline, not part of it: they are modelled here as a deterministic,
//! scriptable in-memory engine so that the orchestration, ordering, checksum
//! and era-step logic — the part this library owns — is fully specified and
//! verified.

pub mod digest;
pub mod effects;
pub mod types;
pub mod checksum;
pub mod state;
pub mod era;
pub mod engine;
pub mod operations;
