//! A forward-only schema migration engine for a local embedded database.
//!
//! The engine takes an ordered catalog of versioned migration units and
//! brings a database from its currently recorded schema version up to the
//! latest known version: each pending unit is applied exactly once, in
//! ascending version order, atomically, and the new version is recorded
//! after each successful unit.  Re-running the engine on an up-to-date
//! database is a no-op, so it is safe to invoke on every application start.
//!
//! The database itself is modelled as a value: named tables of typed rows,
//! plus the single durable schema version record.  A migration unit's
//! operation is an ordered batch of typed statement descriptors rather than
//! raw statement text, so the runner's contract (atomic batch execution,
//! exact rollback on failure) is stated and proved independently of any
//! particular statement dialect.

pub mod catalog;
pub mod db;
pub mod laws;
pub mod order;
pub mod runner;
pub mod schema;
pub mod semantics;
pub mod statement;
pub mod value;
