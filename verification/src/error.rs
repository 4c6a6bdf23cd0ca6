//! Failure kinds reported by the engines, one variant per kind of the
//! error taxonomy: a referenced request that is absent, a consensus
//! request with no recorded responses, a signing failure, a compliance
//! violation, and any other internal invariant violation.

use vstd::prelude::*;

verus! {

/// A typed failure of an engine operation.
#[derive(Debug, Clone, PartialEq, Eq)]
pub enum AgentError {
    /// A referenced verification request id is unknown.
    NotFound(String),
    /// Consensus was requested with zero recorded responses.
    NoData(String),
    /// Signature generation failed.
    CryptoError(String),
    /// A configuration violates the active compliance rules.
    ComplianceError(String),
    /// Any other invariant violation.
    InternalError(String),
}

impl AgentError {
    /// The human-readable detail carried by the failure.
    pub fn message(&self) -> (r: &String)
        ensures
            r == match self {
                AgentError::NotFound(m) => m,
                AgentError::NoData(m) => m,
                AgentError::CryptoError(m) => m,
                AgentError::ComplianceError(m) => m,
                AgentError::InternalError(m) => m,
            },
    {
        match self {
            AgentError::NotFound(m) => m,
            AgentError::NoData(m) => m,
            AgentError::CryptoError(m) => m,
            AgentError::ComplianceError(m) => m,
            AgentError::InternalError(m) => m,
        }
    }
}

} // verus!
