use repository_wrapup::flags::{AbandonedDetails, AbandonedType};
use repository_wrapup::report::{csv_header, csv_line, get_report_line, i64_to_string};
use repository_wrapup::repository::RepositoryRecord;

fn record(full_name: Option<&str>) -> RepositoryRecord {
    RepositoryRecord {
        name: "widget".to_string(),
        full_name: full_name.map(|s| s.to_string()),
        archived: false,
        fork: false,
        created_at: 1_500_000_000,
        owner_login: "acme".to_string(),
    }
}

fn details(t: AbandonedType, days: i64) -> AbandonedDetails {
    AbandonedDetails { abandoned_type: t, last_commit_days: days }
}

#[test]
fn decimal_rendering_is_exact() {
    assert_eq!(i64_to_string(0), "0");
    assert_eq!(i64_to_string(7), "7");
    assert_eq!(i64_to_string(42), "42");
    assert_eq!(i64_to_string(1095), "1095");
    assert_eq!(i64_to_string(-1), "-1");
    assert_eq!(i64_to_string(1_234_567_890), "1234567890");
    assert_eq!(i64_to_string(i64::MAX), "9223372036854775807");
    assert_eq!(i64_to_string(i64::MIN), "-9223372036854775808");
}

#[test]
fn header_row_is_exact() {
    assert_eq!(
        csv_header(),
        "\"Repository\",\"Is Abandoned?\",\"Days of Silence\",\"Notes\"\n"
    );
}

#[test]
fn row_uses_full_name_when_present() {
    let line = csv_line(
        &record(Some("acme/widget")),
        &details(AbandonedType::UntouchedInAges, 1200),
        "why".to_string(),
    );
    assert_eq!(line, "\"acme/widget\",true,1200,\"why\"\n");
}

#[test]
fn row_falls_back_to_bare_name() {
    let line = csv_line(&record(None), &details(AbandonedType::EmptyRepo, -1), "why".to_string());
    assert_eq!(line, "\"widget\",true,-1,\"why\"\n");
}

#[test]
fn quiet_verdicts_emit_nothing() {
    let repo = record(Some("acme/widget"));
    assert_eq!(get_report_line(&repo, &details(AbandonedType::NotAbandoned, 40)), None);
    assert_eq!(get_report_line(&repo, &details(AbandonedType::FreshCommits, 40)), None);
}

#[test]
fn empty_repo_row() {
    let repo = record(Some("acme/widget"));
    let line = get_report_line(&repo, &details(AbandonedType::EmptyRepo, -1)).unwrap();
    assert_eq!(line, "\"acme/widget\",true,-1,\"Repo widget is empty.\"\n");
}

#[test]
fn untouched_in_ages_row() {
    let repo = record(Some("acme/widget"));
    let line = get_report_line(&repo, &details(AbandonedType::UntouchedInAges, 1200)).unwrap();
    assert_eq!(
        line,
        "\"acme/widget\",true,1200,\"Repo widget hasn't been touched in more than 1095 days.\"\n"
    );
}

#[test]
fn missing_maintainers_row() {
    let repo = record(None);
    let line = get_report_line(&repo, &details(AbandonedType::MissingMaintainers, 400)).unwrap();
    assert_eq!(
        line,
        "\"widget\",true,400,\"Repo widget's last commit was not made by a member of this org.\"\n"
    );
}

#[test]
fn abandoned_and_missing_row() {
    let repo = record(Some("acme/widget"));
    let line =
        get_report_line(&repo, &details(AbandonedType::AbandonedAndMissingRepo, 1500)).unwrap();
    assert_eq!(
        line,
        "\"acme/widget\",true,1500,\"Repo widget hasn't been touched in more than 1095 days, and the last person to commit to it is not presently in the org.\"\n"
    );
}

#[test]
fn missing_maintainers_but_fresh_row() {
    let repo = record(Some("acme/widget"));
    let line = get_report_line(
        &repo,
        &details(AbandonedType::MissingMaintainersButFreshCommits, 3),
    )
    .unwrap();
    assert_eq!(
        line,
        "\"acme/widget\",true,3,\"Repo widget does have fresh commits, but they were made by someone who is not a member of this org.\"\n"
    );
}
