//! Point-in-time telemetry collection for a single host.
//!
//! The crate models the decision logic of a host-telemetry collector:
//! enumerating processes, threads and open handles, aggregating logical-disk
//! and memory facts, normalizing free-text fields, and orchestrating the
//! privileged queries that feed one consistent snapshot. All operating-system
//! queries are performed by the surrounding (unverified) glue, which hands
//! their raw results to the verified functions here.

pub mod disk;
pub mod fsinfo;
pub mod handles;
pub mod process;
pub mod rate;
pub mod sanitize;
pub mod snapshot;
pub mod summary;
pub mod textfmt;
pub mod thread;

use vstd::prelude::*;

verus! {

/// Request-scoped failure taxonomy.
///
/// `Unauthorized` refuses a request before any query runs; `Fatal` means no
/// snapshot is possible at all. `PartialUnavailable` classifies a per-field
/// query failure that is absorbed as a missing field, never failing the
/// snapshot. `QueryOverflow` marks a variable-length query that outgrew its
/// retry bound: absorbed like a missing field within a snapshot, surfaced as
/// the operation's error where that query is the whole operation.
#[derive(Clone, Copy, Debug, PartialEq, Eq, Structural)]
pub enum CollectError {
    Unauthorized,
    PartialUnavailable,
    QueryOverflow,
    Fatal,
}

} // verus!
