use vstd::prelude::*;

use crate::model::StreamId;

verus! {

/// Every failure the query service reports, tagged by kind.
#[derive(Debug)]
pub enum LensError {
    /// The SQL text, or an identifier in it, is malformed.
    Parse(String),
    /// Planning failed: an unknown name or a semantic error.
    Plan(String),
    /// Producing batches failed, first materialization included.
    Execution(String),
    /// No live cursor has this identifier.
    UnknownStream(StreamId),
    /// No unused identifier came out of the random draws.
    NoFreshId,
    /// The service's internal messaging failed.
    Channel(String),
}

} // verus!
