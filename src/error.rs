//! The ways in which a request can fail.

use vstd::prelude::*;

verus! {

/// Why a request was refused or could not be answered.
#[derive(Debug, Clone, PartialEq, Eq)]
pub enum QueryError {
    /// The requested span is empty: its stop is not after its start.
    InvalidRange,
    /// A lookback duration could not be read; the text says why.
    InvalidDuration(String),
    /// The store could not be reached or refused the query; the text says why.
    QueryFailed(String),
    /// A row lacks a required column or holds one of the wrong kind.
    MalformedRow,
}

} // verus!
