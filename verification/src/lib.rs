//! A small catalog service core: a typed vocabulary of store operations
//! (create, read, update, delete, list), an in-memory record table with a
//! unique-id invariant, a worker-pool dispatcher that correlates each
//! submitted operation with the caller awaiting its result, and a thin
//! request facade that renders results as transport replies.
//!
//! The table lives in memory, standing in for the relational store the
//! dispatcher treats as an opaque blocking resource: records do not
//! persist across process runs.

pub mod executor;
pub mod handlers;
pub mod laws;
pub mod model;
pub mod ops;
pub mod pool;
pub mod store;
pub mod table;
