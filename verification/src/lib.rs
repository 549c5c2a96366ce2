//! Monitor library for open merge requests against a target branch.
//!
//! The library holds the verified core of the monitor: filtering a fetched
//! list of merge requests by author, enriching each item with its outstanding
//! approval count (all-or-nothing over the per-item fetches), classifying an
//! item's blockers, partitioning into ready and blocked groups, and rendering
//! the grouped report text.

pub mod classify;
pub mod enrich;
pub mod laws;
pub mod report;
pub mod text;
pub mod types;
