//! Scoring a repository by how stale its newest commit is.
//!
//! The score is a small grade on the same signals the classifier reads:
//! the minimum for a fresh commit, the maximum for a repository without
//! commits or with a rotten one, and the middle grades either side of the
//! repository's midpoint.

use vstd::prelude::*;

use crate::repository::RepositoryRecord;

pub mod commit_age;

verus! {

/// One repository's commit-age score.
pub type RepoScoreValue = u32;

/// The best score: nothing stale about the repository.
pub const MIN_SCORE: RepoScoreValue = 0;

/// A mild score: the newest commit is between the thresholds but no older
/// than the repository's midpoint.
pub const LOW_SCORE: RepoScoreValue = 1;

/// A warning score: the newest commit is older than the repository's
/// midpoint.
pub const MEDIUM_SCORE: RepoScoreValue = 2;

/// The score of a rotten newest commit.
pub const HIGH_SCORE: RepoScoreValue = 3;

/// The worst score a repository can receive.
pub const MAX_SCORE: RepoScoreValue = 3;

/// The score a repository starts from before any signal is read.
pub const DEFAULT_SCORE: RepoScoreValue = 0;

/// A repository under scoring, named by owner and name.
#[derive(Debug)]
pub struct Repo {
    pub owner: String,
    pub name: String,
    pub repo: RepositoryRecord,
}

/// A scoring pass over one repository record.
#[derive(Debug)]
pub struct RepoScoring<'a> {
    pub owner: String,
    pub name: String,
    pub repo: &'a RepositoryRecord,
}

impl<'a> RepoScoring<'a> {
    /// Bundle the owner, the name and the record for one scoring pass.
    pub fn new(owner: String, name: String, repo: &'a RepositoryRecord) -> (r: RepoScoring<'a>)
        ensures
            r.owner == owner,
            r.name == name,
            r.repo == repo,
    {
        RepoScoring { owner, name, repo }
    }
}

} // verus!
