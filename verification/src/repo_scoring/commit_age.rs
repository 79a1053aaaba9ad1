//! The commit-age score: the classifier's staleness signals graded on a
//! small scale.

use vstd::prelude::*;

use crate::classifier::{classification_inputs_ok, days_between, half, spec_days_between, spec_is_fresh, spec_is_rotten, FRESH_DAYS, ROTTEN_DAYS};
use crate::probe::LatestCommit;
use crate::repo_scoring::{Repo, RepoScoreValue, HIGH_SCORE, LOW_SCORE, MAX_SCORE, MEDIUM_SCORE, MIN_SCORE};

verus! {

/// The commit-age score of one repository snapshot: the maximum without
/// any commit; the minimum for a fresh newest commit; high for a rotten
/// one; low or medium either side of the repository's midpoint.
pub open spec fn spec_commit_age_score(
    now: int,
    last_commit: Option<LatestCommit>,
    created_at: int,
) -> RepoScoreValue {
    match last_commit {
        None => MAX_SCORE,
        Some(c) => {
            let age_days = spec_days_between(now, c.author_timestamp as int);
            if spec_is_fresh(age_days) {
                MIN_SCORE
            } else if spec_is_rotten(age_days) {
                HIGH_SCORE
            } else if age_days <= spec_days_between(now, created_at) / 2 {
                LOW_SCORE
            } else {
                MEDIUM_SCORE
            }
        },
    }
}

/// Score one repository from its newest commit (or the "no commit"
/// sentinel) and its record, as of `now_secs`.
pub fn commit_age_calculate_score(
    now_secs: i64,
    last_commit: &Option<LatestCommit>,
    input: &Repo,
) -> (score: RepoScoreValue)
    requires
        classification_inputs_ok(now_secs as int, *last_commit, input.repo),
    ensures
        score == spec_commit_age_score(
            now_secs as int,
            *last_commit,
            input.repo.created_at as int,
        ),
        MIN_SCORE <= score <= MAX_SCORE,
{
    match last_commit {
        None => MAX_SCORE,
        Some(c) => {
            let commit_age = days_between(now_secs, c.author_timestamp);
            if commit_age <= FRESH_DAYS {
                return MIN_SCORE;
            } else if commit_age > ROTTEN_DAYS {
                return HIGH_SCORE;
            }
            let repo_age = days_between(now_secs, input.repo.created_at);
            let mid_point = half(repo_age);
            if commit_age <= mid_point {
                return LOW_SCORE;
            }
            MEDIUM_SCORE
        },
    }
}

} // verus!
