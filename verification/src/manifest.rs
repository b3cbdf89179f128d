//! The manifest: an ordered list of resources to fetch and archive.
//!
//! A manifest is loaded once per request by the caller (it is an external
//! collaborator's file), handed to the pipeline as plain values, and read-only
//! thereafter.  Its order defines both the archive's entry order and the
//! emission order.

use vstd::prelude::*;

verus! {

/// One manifest record: fetch `url`, store the bytes under `filename`.
#[derive(Debug)]
pub struct ManifestEntry {
    pub url: String,
    pub filename: String,
}

impl ManifestEntry {
    /// Builds an entry from its two fields.
    pub fn new(url: String, filename: String) -> (e: ManifestEntry)
        ensures
            e.url@ == url@,
            e.filename@ == filename@,
    {
        ManifestEntry { url, filename }
    }
}

/// The target names of a manifest, in manifest order.
pub open spec fn manifest_names(m: Seq<ManifestEntry>) -> Seq<Seq<char>> {
    m.map(|i: int, e: ManifestEntry| e.filename@)
}

} // verus!
