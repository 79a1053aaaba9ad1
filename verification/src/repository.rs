//! Repository records as the audit sees them, and the scope filter that
//! decides which listed repositories are audited at all.

use vstd::prelude::*;

use crate::errors::AuditError;
use crate::probe::LatestCommit;

verus! {

/// A repository together with its newest commit, once probed; `None` is
/// the "no commit" sentinel of an empty repository.
#[derive(Debug)]
pub struct RepoCommitPair {
    pub repo: RepositoryRecord,
    pub last_commit: Option<LatestCommit>,
}

/// The options of one audit run that the scope filter consults.
#[derive(Clone, Copy, Debug, PartialEq, Eq, Structural)]
pub struct AuditOptions {
    /// Audit archived repositories too.
    pub include_archived: bool,
    /// Audit forks too.
    pub include_forks: bool,
}

/// A repository exactly as the remote listing reports it. The archived and
/// fork markers, the creation timestamp and the owner login may all be
/// absent upstream; absence of the latter two is a fatal data fault, which
/// [`validate_repository`] detects.
#[derive(Debug, Clone)]
pub struct RawRepository {
    pub name: String,
    /// The `owner/name` form of the name, when the listing carries it.
    pub full_name: Option<String>,
    pub archived: Option<bool>,
    pub fork: Option<bool>,
    /// Creation time in whole seconds since the Unix epoch.
    pub created_at: Option<i64>,
    pub owner_login: Option<String>,
}

/// A repository whose required fields are all present.
#[derive(Debug, Clone, PartialEq, Eq)]
pub struct RepositoryRecord {
    pub name: String,
    /// The `owner/name` form of the name, when the listing carries it.
    pub full_name: Option<String>,
    pub archived: bool,
    pub fork: bool,
    /// Creation time in whole seconds since the Unix epoch.
    pub created_at: i64,
    pub owner_login: String,
}

/// Whether a listed repository is marked archived; an absent marker counts
/// as not archived.
pub open spec fn raw_archived(repo: RawRepository) -> bool {
    repo.archived == Some(true)
}

/// Whether a listed repository is marked as a fork; an absent marker counts
/// as not a fork.
pub open spec fn raw_fork(repo: RawRepository) -> bool {
    repo.fork == Some(true)
}

/// Decide whether a listed repository is out of scope for this run, before
/// any commit history is fetched for it.
///
/// An archived repository is skipped unless the run explicitly asked to
/// include archived repositories, and a fork is skipped unless the run
/// explicitly asked to include forks: asking for a category never causes a
/// skip.
pub fn should_skip_repo(opts: &AuditOptions, repo: &RawRepository) -> (skip: bool)
    ensures
        skip == (raw_archived(*repo) && !opts.include_archived || raw_fork(*repo)
            && !opts.include_forks),
{
    if repo.archived.unwrap_or(false) && !opts.include_archived {
        return true;
    }
    if repo.fork.unwrap_or(false) && !opts.include_forks {
        return true;
    }
    false
}

/// Check that a listed repository carries every required field, and turn it
/// into a [`RepositoryRecord`]. A missing owner login is reported before a
/// missing creation timestamp.
pub fn validate_repository(raw: RawRepository) -> (r: Result<RepositoryRecord, AuditError>)
    ensures
        match r {
            Ok(rec) => {
                &&& raw.owner_login is Some
                &&& raw.created_at is Some
                &&& rec.name == raw.name
                &&& rec.full_name == raw.full_name
                &&& rec.archived == raw_archived(raw)
                &&& rec.fork == raw_fork(raw)
                &&& Some(rec.created_at) == raw.created_at
                &&& Some(rec.owner_login) == raw.owner_login
            },
            Err(e) => {
                ||| (e == AuditError::MissingOwner && raw.owner_login is None)
                ||| (e == AuditError::MissingCreationTimestamp && raw.owner_login is Some
                    && raw.created_at is None)
            },
        },
{
    let archived = raw.archived.unwrap_or(false);
    let fork = raw.fork.unwrap_or(false);
    let owner_login = match raw.owner_login {
        Some(o) => o,
        None => {
            return Err(AuditError::MissingOwner);
        },
    };
    let created_at = match raw.created_at {
        Some(t) => t,
        None => {
            return Err(AuditError::MissingCreationTimestamp);
        },
    };
    Ok(
        RepositoryRecord {
            name: raw.name,
            full_name: raw.full_name,
            archived,
            fork,
            created_at,
            owner_login,
        },
    )
}

} // verus!
