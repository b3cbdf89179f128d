//! Incremental streaming of a compressed archive.
//!
//! Given an ordered manifest of (url, filename) pairs, the library appends
//! each fetched resource to a single zip container and hands the growing
//! archive to a consumer in increments: after each entry, exactly the bytes
//! appended since the previous emission are drained and emitted, and after
//! finalization one last emission carries the container's footer.  Network
//! fetching and manifest loading are the caller's concern; the caller feeds
//! fetched chunks into the [`pipeline::Pipeline`] and forwards each emission.

pub mod errors;
pub mod manifest;
pub mod pipeline;
pub mod raw;
pub mod server;
pub mod sink;
