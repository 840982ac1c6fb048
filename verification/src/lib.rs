//! A one-shot migration library for a small forum database: it provisions a
//! destination schema, converts raw source rows into typed records, and loads
//! each record collection into the destination store, together with the small
//! reply logic of the sibling image-fetch endpoint.

use vstd::prelude::*;

pub mod mapper;
pub mod pipeline;
pub mod proxy;
pub mod records;
pub mod store;
pub mod timefmt;

verus! {

/// One of the three migrated collections, each with its own table and its own
/// load phase.
#[derive(Clone, Copy, Debug, PartialEq, Eq, Structural)]
pub enum EntityKind {
    Threads,
    Posts,
    Bans,
}

/// Everything that can halt a run, by phase: a schema (DDL) failure, a source
/// row whose shape does not match its entity kind, or a failed insert (for
/// instance a duplicate key).
#[derive(Clone, Copy, Debug, PartialEq, Eq, Structural)]
pub enum MigrateError {
    Schema,
    BadRow { kind: EntityKind, index: usize },
    Load { kind: EntityKind },
}

} // verus!
