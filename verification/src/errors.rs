//! Typed failures of an ingestion. Only metadata and tree resolution are
//! fatal; README, manifest and per-file content failures degrade to absence
//! and never surface here.

use vstd::prelude::*;

verus! {

/// The fatal stages of an ingestion.
#[derive(Clone, Copy, Debug, PartialEq, Eq, Structural)]
pub enum Stage {
    /// Fetching and reading the repository metadata.
    Metadata,
    /// Fetching and reading the recursive tree listing.
    Tree,
}

/// Why an ingestion failed.
#[derive(Clone, Debug)]
pub enum IngestError {
    /// The network transport failed, with its cause chain flattened.
    Transport { stage: Stage, detail: String },
    /// The upstream answered with a non-success status.
    UpstreamStatus { stage: Stage, status: u16, body: String },
    /// The response body could not be read as JSON.
    Decode { stage: Stage },
    /// A required credential is missing.
    Configuration { detail: String },
}

} // verus!
