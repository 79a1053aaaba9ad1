//! The fatal faults an audit run can hit.
//!
//! Every remote failure other than the distinguished "repository has no
//! commit history" condition is fatal, and so is any required field missing
//! from an otherwise successful response. None of these is retried or
//! recovered from: the caller aborts the run.

use vstd::prelude::*;

verus! {

/// A fault that aborts the audit of the current run.
#[derive(Debug, Clone, PartialEq, Eq)]
pub enum AuditError {
    /// A listed repository carries no owner login.
    MissingOwner,
    /// A listed repository carries no creation timestamp.
    MissingCreationTimestamp,
    /// The newest commit carries no committer login.
    MissingCommitter,
    /// The newest commit carries no author timestamp.
    MissingAuthorTimestamp,
    /// The remote side failed outside the one expected condition; the
    /// payload is the remote error message.
    RemoteFailure(String),
}

} // verus!
