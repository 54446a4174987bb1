//! A typed interop bridge over a reference-counted columnar dataflow engine.
//!
//! The bridge exposes tables, computation nodes and columns of a native
//! columnar engine to a host runtime with different memory-management and
//! type rules. Its core, modelled and verified here, is:
//!
//! * the closed registry of scalar type tags and the dispatch from a tag to
//!   the matching width-specific reader,
//! * the ownership regime (exclusively owned pool, shared table and column
//!   handles) under which native objects cross into host code,
//! * the table-processing contract that makes a computation node's output
//!   valid to read only after an explicit processing step.
//!
//! The engine's own query and update semantics (indexing, aggregation,
//! storage layout) are outside this crate's scope; the node model here keeps
//! only what the bridge contract needs: materialized columns, pending input
//! rows, a materialization counter and a port allocator.

pub mod dtype;
pub mod error;
pub mod scalar;
pub mod column;
pub mod schema;
pub mod node;
pub mod render;
pub mod table;
pub mod pool;
