//! The error taxonomy of the ingestion core.  A duplicate-URL conflict is
//! deliberately absent: it is a normal per-record outcome, surfaced only
//! through the skipped count of a summary.

use vstd::prelude::*;

verus! {

/// Why a direct-create batch was rejected before any store interaction.
#[derive(Debug, Clone, Copy, PartialEq, Eq, Structural)]
pub enum ValidationFault {
    /// The batch held no records at all.
    EmptyBatch,
    /// The batch held more records than one transaction may carry.
    OversizedBatch,
}

/// Everything that can make an ingestion run or a direct create fail.
#[derive(Debug, Clone, Copy, PartialEq, Eq, Structural)]
pub enum IngestError {
    /// Network or transport failure, or a non-success status, from the
    /// remote job-search provider.
    RemoteFetchError,
    /// A malformed or unexpectedly shaped response body from the provider.
    ResponseParseError,
    /// A transaction or store failure unrelated to the expected
    /// URL-uniqueness conflict.
    PersistenceError,
    /// An empty or oversized direct-create batch, rejected before any store
    /// interaction.
    ValidationError(ValidationFault),
}

} // verus!
