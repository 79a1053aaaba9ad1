use repository_wrapup::classifier::{
    classify_at_present, get_repository_abandoned_type, FRESH_DAYS, ROTTEN_DAYS,
};
use repository_wrapup::flags::AbandonedType;
use repository_wrapup::membership::MembershipIndex;
use repository_wrapup::probe::LatestCommit;
use repository_wrapup::repository::RepositoryRecord;

const NOW: i64 = 2_000_000_000;
const DAY: i64 = 86_400;

fn record(created_days_ago: i64) -> RepositoryRecord {
    RepositoryRecord {
        name: "widget".to_string(),
        full_name: Some("acme/widget".to_string()),
        archived: false,
        fork: false,
        created_at: NOW - created_days_ago * DAY,
        owner_login: "acme".to_string(),
    }
}

fn commit_by(login: &str, age_days: i64) -> LatestCommit {
    LatestCommit {
        sha: "abc123".to_string(),
        committer_login: login.to_string(),
        author_timestamp: NOW - age_days * DAY,
    }
}

fn members_of(logins: &[&str]) -> MembershipIndex {
    let mut m = MembershipIndex::new();
    for l in logins {
        m.insert(l.to_string());
    }
    m
}

#[test]
fn empty_repo_gets_sentinel_age() {
    let d = get_repository_abandoned_type(NOW, &None, &record(1000), &members_of(&["alice"]));
    assert_eq!(d.abandoned_type, AbandonedType::EmptyRepo);
    assert_eq!(d.last_commit_days, -1);
}

#[test]
fn fresh_commit_by_member_is_quiet() {
    let commit = Some(commit_by("alice", 10));
    let d = get_repository_abandoned_type(NOW, &commit, &record(1000), &members_of(&["alice"]));
    assert_eq!(d.abandoned_type, AbandonedType::FreshCommits);
    assert_eq!(d.last_commit_days, 10);
}

#[test]
fn fresh_commit_by_stranger_keeps_missing_maintainer() {
    let commit = Some(commit_by("drifter", 10));
    let d = get_repository_abandoned_type(NOW, &commit, &record(1000), &members_of(&["alice"]));
    assert_eq!(d.abandoned_type, AbandonedType::MissingMaintainersButFreshCommits);
}

#[test]
fn fresh_boundary_is_inclusive() {
    let commit = Some(commit_by("alice", FRESH_DAYS));
    let d = get_repository_abandoned_type(NOW, &commit, &record(200), &members_of(&["alice"]));
    // 180 days is still fresh, even though it lies past this repo's midpoint.
    assert_eq!(d.abandoned_type, AbandonedType::FreshCommits);
}

#[test]
fn rotten_commit_is_untouched_in_ages() {
    let commit = Some(commit_by("alice", ROTTEN_DAYS + 1));
    let d = get_repository_abandoned_type(NOW, &commit, &record(4000), &members_of(&["alice"]));
    assert_eq!(d.abandoned_type, AbandonedType::UntouchedInAges);
    assert_eq!(d.last_commit_days, ROTTEN_DAYS + 1);
}

#[test]
fn rotten_boundary_is_exclusive() {
    // Exactly ROTTEN_DAYS old is not rotten; with a young enough midpoint it
    // still counts as untouched, via the midpoint rule.
    let commit = Some(commit_by("alice", ROTTEN_DAYS));
    let d = get_repository_abandoned_type(NOW, &commit, &record(2000), &members_of(&["alice"]));
    assert_eq!(d.abandoned_type, AbandonedType::UntouchedInAges);

    // With a repository more than twice as old as the commit, the midpoint
    // rule stays quiet.
    let d = get_repository_abandoned_type(NOW, &commit, &record(8000), &members_of(&["alice"]));
    assert_eq!(d.abandoned_type, AbandonedType::NotAbandoned);
}

#[test]
fn midpoint_boundary_is_exclusive() {
    // Midpoint of a 362-day-old repository is 181; a 181-day-old commit is
    // not older than it.
    let commit = Some(commit_by("alice", 181));
    let d = get_repository_abandoned_type(NOW, &commit, &record(362), &members_of(&["alice"]));
    assert_eq!(d.abandoned_type, AbandonedType::NotAbandoned);

    let commit = Some(commit_by("alice", 182));
    let d = get_repository_abandoned_type(NOW, &commit, &record(362), &members_of(&["alice"]));
    assert_eq!(d.abandoned_type, AbandonedType::UntouchedInAges);
}

#[test]
fn missing_maintainer_iff_absent_from_index() {
    let members = members_of(&["alice", "bob"]);
    let present = Some(commit_by("bob", 400));
    let absent = Some(commit_by("mallory", 400));
    let repo = record(1000);
    // 400 > midpoint 500 is false, so only the maintainer signal differs.
    let d = get_repository_abandoned_type(NOW, &present, &repo, &members);
    assert_eq!(d.abandoned_type, AbandonedType::NotAbandoned);
    let d = get_repository_abandoned_type(NOW, &absent, &repo, &members);
    assert_eq!(d.abandoned_type, AbandonedType::MissingMaintainers);
}

#[test]
fn membership_match_is_case_sensitive() {
    let members = members_of(&["Alice"]);
    let commit = Some(commit_by("alice", 400));
    let d = get_repository_abandoned_type(NOW, &commit, &record(1000), &members);
    assert_eq!(d.abandoned_type, AbandonedType::MissingMaintainers);
}

#[test]
fn classification_is_idempotent() {
    let commit = Some(commit_by("mallory", 700));
    let repo = record(1000);
    let members = members_of(&["alice"]);
    let first = get_repository_abandoned_type(NOW, &commit, &repo, &members);
    let second = get_repository_abandoned_type(NOW, &commit, &repo, &members);
    assert_eq!(first, second);
}

#[test]
fn scenario_member_commit_under_midpoint() {
    // Created 1000 days ago, newest commit 400 days ago, committer is a
    // member: midpoint 500, 400 < 500, so nothing is flagged.
    let commit = Some(commit_by("alice", 400));
    let d = get_repository_abandoned_type(NOW, &commit, &record(1000), &members_of(&["alice"]));
    assert_eq!(d.abandoned_type, AbandonedType::NotAbandoned);
    assert_eq!(d.last_commit_days, 400);
}

#[test]
fn scenario_stranger_commit_past_midpoint() {
    // Created 200 days ago, newest commit 190 days ago, committer not a
    // member: not fresh, not rotten, midpoint 100, 190 > 100.
    let commit = Some(commit_by("mallory", 190));
    let d = get_repository_abandoned_type(NOW, &commit, &record(200), &members_of(&["alice"]));
    assert_eq!(d.abandoned_type, AbandonedType::AbandonedAndMissingRepo);
    assert_eq!(d.last_commit_days, 190);
}

#[test]
fn scenario_no_members_at_all() {
    // An organization with zero members: the maintainer flag is always
    // raised, whoever committed.
    let repo = record(1000);
    let none = MembershipIndex::new();
    for login in ["alice", "bob", "mallory"] {
        let commit = Some(commit_by(login, 400));
        let d = get_repository_abandoned_type(NOW, &commit, &repo, &none);
        assert_eq!(d.abandoned_type, AbandonedType::MissingMaintainers);
    }
}

#[test]
fn classify_at_present_runs_against_the_clock() {
    // Timestamps from 1970 lie far in the past of any sane clock: the
    // commit is rotten and the committer unknown.
    let repo = RepositoryRecord {
        name: "widget".to_string(),
        full_name: None,
        archived: false,
        fork: false,
        created_at: 0,
        owner_login: "acme".to_string(),
    };
    let commit = Some(LatestCommit {
        sha: "abc123".to_string(),
        committer_login: "mallory".to_string(),
        author_timestamp: 1000,
    });
    let d = classify_at_present(&commit, &repo, &MembershipIndex::new())
        .expect("the clock lies after 1970");
    assert_eq!(d.abandoned_type, AbandonedType::AbandonedAndMissingRepo);
    assert!(d.last_commit_days > ROTTEN_DAYS);
}
