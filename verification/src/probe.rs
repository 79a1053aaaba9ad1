//! Interpretation of one probe of a repository's commit history.
//!
//! The probe requests exactly one page of size one from the commit-history
//! resource, newest first. The request itself is I/O and lives with the
//! caller; what it observed comes back here as a [`ProbeReply`], and
//! [`interpret_probe`] decides what it means: a newest commit, the "no
//! commit" sentinel, or a fatal fault.

use vstd::prelude::*;
use vstd::string::StringExecFns;

use crate::errors::AuditError;

verus! {

/// A commit exactly as the remote history reports it. The committer login
/// and the author timestamp may be absent upstream; on a non-empty probe
/// result both are required, and absence is a fatal data fault.
#[derive(Debug, Clone)]
pub struct CommitSnapshot {
    pub sha: String,
    pub committer_login: Option<String>,
    /// Author time in whole seconds since the Unix epoch.
    pub author_timestamp: Option<i64>,
}

/// The newest commit of a repository, with both required fields present.
#[derive(Debug, Clone, PartialEq, Eq)]
pub struct LatestCommit {
    pub sha: String,
    pub committer_login: String,
    /// Author time in whole seconds since the Unix epoch.
    pub author_timestamp: i64,
}

/// What one probe of the commit-history resource observed: a page of
/// commits, a remote error with its message, or a transport failure that
/// produced no remote message at all.
#[derive(Debug)]
pub enum ProbeReply {
    /// The request succeeded; the page holds the returned items in order,
    /// newest first.
    Page(Vec<CommitSnapshot>),
    /// The remote side answered with an error carrying this message.
    ApiError(String),
    /// The request itself failed; the payload describes the failure.
    TransportFailure(String),
}

/// The distinguished remote error message that means the repository has no
/// commit history at all.
pub open spec fn empty_repository_message() -> Seq<char> {
    "Git Repository is empty."@
}

/// Decide what one probe of the commit history means.
///
/// A page with no items, or the distinguished remote error meaning the
/// repository has no commit history, is the "no commit" sentinel `None`.
/// The first item of a non-empty page is the newest commit; its committer
/// login and author timestamp are both required, and a missing one is
/// reported as the fatal fault it is (a missing committer before a missing
/// timestamp). Every other remote failure is fatal and not retried.
pub fn interpret_probe(reply: ProbeReply) -> (r: Result<Option<LatestCommit>, AuditError>)
    ensures
        match reply {
            ProbeReply::Page(v) => {
                if v@.len() == 0 {
                    r == Ok::<Option<LatestCommit>, AuditError>(None)
                } else if v@[0].committer_login is None {
                    r == Err::<Option<LatestCommit>, AuditError>(AuditError::MissingCommitter)
                } else if v@[0].author_timestamp is None {
                    r == Err::<Option<LatestCommit>, AuditError>(AuditError::MissingAuthorTimestamp)
                } else {
                    &&& r matches Ok(Some(c))
                    &&& c.sha == v@[0].sha
                    &&& Some(c.committer_login) == v@[0].committer_login
                    &&& Some(c.author_timestamp) == v@[0].author_timestamp
                }
            },
            ProbeReply::ApiError(m) => {
                if m@ == empty_repository_message() {
                    r == Ok::<Option<LatestCommit>, AuditError>(None)
                } else {
                    r == Err::<Option<LatestCommit>, AuditError>(AuditError::RemoteFailure(m))
                }
            },
            ProbeReply::TransportFailure(m) => r == Err::<Option<LatestCommit>, AuditError>(
                AuditError::RemoteFailure(m),
            ),
        },
{
    match reply {
        ProbeReply::Page(mut v) => {
            if v.len() == 0 {
                Ok(None)
            } else {
                let first = v.remove(0);
                let committer_login = match first.committer_login {
                    Some(l) => l,
                    None => {
                        return Err(AuditError::MissingCommitter);
                    },
                };
                let author_timestamp = match first.author_timestamp {
                    Some(t) => t,
                    None => {
                        return Err(AuditError::MissingAuthorTimestamp);
                    },
                };
                Ok(Some(LatestCommit { sha: first.sha, committer_login, author_timestamp }))
            }
        },
        ProbeReply::ApiError(m) => {
            if m == String::from_str("Git Repository is empty.") {
                Ok(None)
            } else {
                Err(AuditError::RemoteFailure(m))
            }
        },
        ProbeReply::TransportFailure(m) => Err(AuditError::RemoteFailure(m)),
    }
}

} // verus!
