//! The central decision procedure: from the newest commit, the repository
//! record and the membership index to an abandonment verdict.
//!
//! The rules, evaluated strictly in order for a repository with at least
//! one commit: a committer who is no organization member raises the
//! missing-maintainers flag; a commit within [`FRESH_DAYS`] is fresh and
//! short-circuits every staleness check; a commit older than
//! [`ROTTEN_DAYS`] is untouched in ages; otherwise the commit is untouched
//! in ages exactly when it is older than half the repository's own age.
//! A repository with no commit at all is empty, with the age sentinel `-1`,
//! and carries no other flag.

use vstd::arithmetic::div_mod::{lemma_div_nonincreasing, lemma_div_pos_is_pos};
use vstd::prelude::*;

use crate::flags::{combine_flags, combined_flags, has_fresh_commits, has_missing_maintainers, has_untouched_in_ages, AbandonedDetails, AbandonedType};
use crate::membership::MembershipIndex;
use crate::probe::LatestCommit;
use crate::repository::RepositoryRecord;

verus! {

/// A commit at most this many days old is fresh.
pub const FRESH_DAYS: i64 = 180;

/// A commit older than this many days (three years) is rotten.
pub const ROTTEN_DAYS: i64 = 365 * 3;

/// The length of one whole day in seconds.
pub const SECONDS_PER_DAY: u64 = 86400;

/// Whole days between two instants, both in seconds since the Unix epoch,
/// truncated.
pub open spec fn spec_days_between(now: int, earlier: int) -> int {
    (now - earlier) / (SECONDS_PER_DAY as int)
}

/// Is a commit of this age fresh?
pub open spec fn spec_is_fresh(age_days: int) -> bool {
    age_days <= FRESH_DAYS as int
}

/// Is a commit of this age rotten?
pub open spec fn spec_is_rotten(age_days: int) -> bool {
    age_days > ROTTEN_DAYS as int
}

/// Is a commit of this age untouched in ages, for a repository of the given
/// age? Rotten commits always are; commits between the two thresholds are
/// when they are older than the repository's midpoint; fresh commits never
/// are.
pub open spec fn spec_untouched(age_days: int, repo_age_days: int) -> bool {
    !spec_is_fresh(age_days) && (spec_is_rotten(age_days) || age_days > repo_age_days / 2)
}

/// The bounds under which the classification is evaluated: every timestamp
/// lies in the past, and the spans until now fit the machine's arithmetic.
pub open spec fn classification_inputs_ok(
    now: int,
    last_commit: Option<LatestCommit>,
    repo: RepositoryRecord,
) -> bool {
    &&& repo.created_at <= now
    &&& now - repo.created_at <= i64::MAX
    &&& (last_commit matches Some(c) ==> c.author_timestamp <= now && now - c.author_timestamp
        <= i64::MAX)
}

/// What it means for `r` to be the verdict for the given snapshot: with no
/// commit, exactly the empty-repository verdict with age `-1`; with a
/// newest commit, the age in whole days and exactly the flags that the
/// three signals (missing maintainer, freshness, staleness) call for.
pub open spec fn is_classification(
    r: AbandonedDetails,
    now: int,
    last_commit: Option<LatestCommit>,
    repo: RepositoryRecord,
    members: Set<Seq<char>>,
) -> bool {
    match last_commit {
        None => r.abandoned_type == AbandonedType::EmptyRepo && r.last_commit_days == -1,
        Some(c) => {
            let age_days = spec_days_between(now, c.author_timestamp as int);
            let repo_age_days = spec_days_between(now, repo.created_at as int);
            let missing = !members.contains(c.committer_login@);
            &&& r.last_commit_days == age_days
            &&& r.abandoned_type == combined_flags(
                missing,
                spec_is_fresh(age_days),
                spec_untouched(age_days, repo_age_days),
            )
        },
    }
}

/// Whole days between two past-to-present instants, truncated.
pub(crate) fn days_between(now_secs: i64, earlier_secs: i64) -> (days: i64)
    requires
        earlier_secs <= now_secs,
        now_secs - earlier_secs <= i64::MAX,
    ensures
        days == spec_days_between(now_secs as int, earlier_secs as int),
        0 <= days,
{
    let diff: i64 = now_secs - earlier_secs;
    let d: u64 = (diff as u64) / SECONDS_PER_DAY;
    proof {
        lemma_div_pos_is_pos(diff as int, SECONDS_PER_DAY as int);
        lemma_div_nonincreasing(diff as int, SECONDS_PER_DAY as int);
    }
    d as i64
}

/// Half of a non-negative day count, truncated.
pub(crate) fn half(days: i64) -> (h: i64)
    requires
        0 <= days,
    ensures
        h == (days as int) / 2,
        0 <= h,
{
    let h: u64 = (days as u64) / 2;
    proof {
        lemma_div_pos_is_pos(days as int, 2);
        lemma_div_nonincreasing(days as int, 2);
    }
    h as i64
}

/// Classify one repository from its newest commit (or the "no commit"
/// sentinel), its record, and the membership index, as of `now_secs`.
pub fn get_repository_abandoned_type(
    now_secs: i64,
    last_commit: &Option<LatestCommit>,
    repo: &RepositoryRecord,
    members: &MembershipIndex,
) -> (r: AbandonedDetails)
    requires
        classification_inputs_ok(now_secs as int, *last_commit, *repo),
    ensures
        is_classification(r, now_secs as int, *last_commit, *repo, members@),
{
    match last_commit {
        None => AbandonedDetails { abandoned_type: AbandonedType::EmptyRepo, last_commit_days: -1 },
        Some(c) => {
            let missing = !members.contains(&c.committer_login);
            let age_days = days_between(now_secs, c.author_timestamp);
            let fresh = age_days <= FRESH_DAYS;
            let untouched: bool = if fresh {
                false
            } else if age_days > ROTTEN_DAYS {
                true
            } else {
                let repo_age_days = days_between(now_secs, repo.created_at);
                let mid_point = half(repo_age_days);
                age_days > mid_point
            };
            AbandonedDetails {
                abandoned_type: combine_flags(missing, fresh, untouched),
                last_commit_days: age_days,
            }
        },
    }
}

/// Relies on `chrono::Utc::now` and `chrono::DateTime::timestamp` for the
/// current time as whole seconds since the Unix epoch. Nothing is promised
/// of the value: it is whatever the machine's clock says.
#[verifier::external_body]
fn now_unix_seconds() -> (r: i64) {
    chrono::Utc::now().timestamp()
}

/// Classify one repository as of the present moment of the machine's
/// clock. Returns `None` when that clock lies before one of the snapshot's
/// timestamps, or so far after them that the spans do not fit the
/// machine's arithmetic; otherwise the verdict for some present instant.
pub fn classify_at_present(
    last_commit: &Option<LatestCommit>,
    repo: &RepositoryRecord,
    members: &MembershipIndex,
) -> (r: Option<AbandonedDetails>)
    ensures
        match r {
            None => true,
            Some(d) => exists|now: int|
                classification_inputs_ok(now, *last_commit, *repo) && is_classification(
                    d,
                    now,
                    *last_commit,
                    *repo,
                    members@,
                ),
        },
{
    let now_secs = now_unix_seconds();
    if repo.created_at > now_secs {
        return None;
    }
    if now_secs.checked_sub(repo.created_at).is_none() {
        return None;
    }
    match last_commit {
        Some(c) => {
            if c.author_timestamp > now_secs {
                return None;
            }
            if now_secs.checked_sub(c.author_timestamp).is_none() {
                return None;
            }
        },
        None => {},
    }
    let d = get_repository_abandoned_type(now_secs, last_commit, repo, members);
    proof {
        assert(classification_inputs_ok(now_secs as int, *last_commit, *repo) && is_classification(
            d,
            now_secs as int,
            *last_commit,
            *repo,
            members@,
        ));
    }
    Some(d)
}

/// Law: a repository with no commit at all is classified as empty with the
/// age sentinel `-1`; and the empty-repository verdict, like the sentinel,
/// arises for no other repository.
pub proof fn lemma_empty_repo_iff_no_commit(
    r: AbandonedDetails,
    now: int,
    last_commit: Option<LatestCommit>,
    repo: RepositoryRecord,
    members: Set<Seq<char>>,
)
    requires
        classification_inputs_ok(now, last_commit, repo),
        is_classification(r, now, last_commit, repo, members),
    ensures
        (r.abandoned_type == AbandonedType::EmptyRepo <==> last_commit is None),
        (r.last_commit_days == -1 <==> last_commit is None),
        last_commit is Some ==> r.last_commit_days >= 0,
{
    match last_commit {
        Some(c) => {
            lemma_div_pos_is_pos(now - c.author_timestamp, SECONDS_PER_DAY as int);
        },
        None => {},
    }
}

/// Law: a repository whose newest commit is at most [`FRESH_DAYS`] days
/// old carries the fresh-commits flag, independent of every other signal.
pub proof fn lemma_fresh_commits_flagged(
    r: AbandonedDetails,
    now: int,
    commit: LatestCommit,
    repo: RepositoryRecord,
    members: Set<Seq<char>>,
)
    requires
        is_classification(r, now, Some(commit), repo, members),
        spec_days_between(now, commit.author_timestamp as int) <= FRESH_DAYS as int,
    ensures
        has_fresh_commits(r.abandoned_type),
{
}

/// Law: a repository whose newest commit is more than [`ROTTEN_DAYS`] days
/// old carries the untouched-in-ages flag.
pub proof fn lemma_rotten_commits_flagged(
    r: AbandonedDetails,
    now: int,
    commit: LatestCommit,
    repo: RepositoryRecord,
    members: Set<Seq<char>>,
)
    requires
        is_classification(r, now, Some(commit), repo, members),
        spec_days_between(now, commit.author_timestamp as int) > ROTTEN_DAYS as int,
    ensures
        has_untouched_in_ages(r.abandoned_type),
{
}

/// Law: the missing-maintainers flag is present exactly when the newest
/// commit's committer login is absent from the membership index; the
/// comparison is case-sensitive and exact.
pub proof fn lemma_missing_maintainer_iff_absent(
    r: AbandonedDetails,
    now: int,
    commit: LatestCommit,
    repo: RepositoryRecord,
    members: Set<Seq<char>>,
)
    requires
        is_classification(r, now, Some(commit), repo, members),
    ensures
        has_missing_maintainers(r.abandoned_type) <==> !members.contains(
            commit.committer_login@,
        ),
{
}

/// Law: classifying one fixed snapshot twice yields identical flags and
/// age; the verdict is a function of the snapshot alone.
pub proof fn lemma_classification_deterministic(
    r1: AbandonedDetails,
    r2: AbandonedDetails,
    now: int,
    last_commit: Option<LatestCommit>,
    repo: RepositoryRecord,
    members: Set<Seq<char>>,
)
    requires
        is_classification(r1, now, last_commit, repo, members),
        is_classification(r2, now, last_commit, repo, members),
    ensures
        r1 == r2,
{
}

/// Law: in an organization with no members at all, every repository with a
/// commit carries the missing-maintainers flag, whoever the committer is.
pub proof fn lemma_no_members_always_missing(
    r: AbandonedDetails,
    now: int,
    commit: LatestCommit,
    repo: RepositoryRecord,
)
    requires
        is_classification(r, now, Some(commit), repo, Set::<Seq<char>>::empty()),
    ensures
        has_missing_maintainers(r.abandoned_type),
{
}

} // verus!
