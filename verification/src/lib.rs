//! Audits the repositories of a hosting-platform organization and classifies
//! each one as abandoned or active from weak, independently observable
//! signals: how recent the newest commit is, whether the last committer is
//! still an organization member, and how stale the repository is relative to
//! its own age.

pub mod classifier;
pub mod errors;
pub mod flags;
pub mod membership;
pub mod pagination;
pub mod probe;
pub mod report;
pub mod repo_scoring;
pub mod repository;
