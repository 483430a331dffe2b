//! Control plane for a multi-tenant SQL server with WAL-level replication.
//!
//! Each tenant ("namespace") owns an independent database that is either a
//! primary (accepts writes, appends committed frames to a replication log)
//! or a replica (serves reads from replayed frames and forwards writes to
//! the primary). This crate holds the orchestration logic: the WAL
//! abstraction through which committed frames are captured or replayed, the
//! role objects that hand out connections, and the per-namespace
//! configuration store with multi-reader/single-writer semantics.

pub mod channels;
pub mod connection;
pub mod database;
pub mod meta_store;
pub mod namespace;
pub mod replication;
pub mod wal;
