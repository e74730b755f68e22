//! The failure taxonomy of the fetch pipelines.
//!
//! A failure is confined to the pipeline of the source it arose in: the
//! scheduler keeps the failing source's previously published snapshot and
//! the sibling sources are unaffected.

use vstd::prelude::*;

verus! {

/// The source a record set or a failure belongs to.
#[derive(Clone, Copy, Debug, PartialEq, Eq, Structural)]
pub enum SourceName {
    /// The bank-transfer feed.
    Transfers,
    /// The code-review feed.
    Reviews,
    /// The form-verification feed.
    Verifications,
}

/// Why a source's fetch pipeline stopped short of a full record set.
#[derive(Clone, Copy, Debug, PartialEq, Eq, Structural)]
pub enum FailureKind {
    /// A connection or status failure at the HTTP layer, or a page the
    /// transport never delivered.
    Transport,
    /// A page whose JSON shape is not the one the source documents.
    Decode,
    /// The source requires a credential and none was configured.
    AuthAbsent,
    /// The payload itself signals an application-level error, such as an
    /// error array in a query response.
    Upstream,
}

/// A fetch failure, carrying the source it arose in and the index of the
/// page on which the pipeline stopped.
#[derive(Clone, Debug)]
pub struct FetchFailure {
    pub source: SourceName,
    pub kind: FailureKind,
    pub page_index: u64,
}

impl FetchFailure {
    /// Stamps a bare failure kind with its source and page position.
    pub fn at(source: SourceName, kind: FailureKind, page_index: u64) -> (r: FetchFailure)
        ensures
            r.source == source,
            r.kind == kind,
            r.page_index == page_index,
    {
        FetchFailure { source, kind, page_index }
    }
}

} // verus!
