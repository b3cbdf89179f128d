//! The error taxonomy of the streaming pipeline.
//!
//! Every error is fatal to the whole request: nothing is retried and no
//! partial-failure recovery is attempted.  An in-progress stream simply ends
//! early; bytes already emitted stay with the consumer.

use vstd::prelude::*;

verus! {

/// A fatal pipeline error.
#[derive(Clone, Copy, Debug, PartialEq, Eq, Structural)]
pub enum StreamError {
    /// The manifest could not be read or parsed; the pipeline never starts.
    Manifest,
    /// A network fetch failed for one entry; the whole request is aborted.
    Fetch,
    /// An archive-format invariant was violated, such as appending without an
    /// open entry, an empty entry name, or finalizing twice.
    Write,
    /// The consumer disconnected or the sink became unreadable.
    Emission,
}

} // verus!
