//! The abandonment taxonomy: the verdict a classified repository receives.
//!
//! Only the seven legal flag combinations are representable, so an illegal
//! combination (such as an empty repository that also carries another flag)
//! is unreachable by construction.

use vstd::prelude::*;

verus! {

/// The verdict for one repository. Each variant is one of the seven legal
/// combinations of the underlying flags: empty repository, untouched in
/// ages, missing maintainers, and fresh commits.
#[derive(Clone, Copy, Debug, PartialEq, Eq, Structural)]
pub enum AbandonedType {
    /// No flag raised.
    NotAbandoned,
    /// The repository has no commit at all.
    EmptyRepo,
    /// The newest commit is older than the rotten threshold, or older than
    /// half the repository's own age.
    UntouchedInAges,
    /// The last committer is not a member of the organization.
    MissingMaintainers,
    /// The newest commit is within the fresh threshold.
    FreshCommits,
    /// Both untouched in ages and missing maintainers.
    AbandonedAndMissingRepo,
    /// Fresh commits, but made by someone outside the organization.
    MissingMaintainersButFreshCommits,
}

/// Does the verdict carry the fresh-commits flag?
pub open spec fn has_fresh_commits(t: AbandonedType) -> bool {
    t == AbandonedType::FreshCommits || t == AbandonedType::MissingMaintainersButFreshCommits
}

/// Does the verdict carry the missing-maintainers flag?
pub open spec fn has_missing_maintainers(t: AbandonedType) -> bool {
    ||| t == AbandonedType::MissingMaintainers
    ||| t == AbandonedType::AbandonedAndMissingRepo
    ||| t == AbandonedType::MissingMaintainersButFreshCommits
}

/// Does the verdict carry the untouched-in-ages flag?
pub open spec fn has_untouched_in_ages(t: AbandonedType) -> bool {
    t == AbandonedType::UntouchedInAges || t == AbandonedType::AbandonedAndMissingRepo
}

/// The verdict that carries exactly the given flags, for a repository that
/// has at least one commit. Freshness and staleness never co-occur: the
/// caller establishes `fresh ==> !untouched`.
pub open spec fn combined_flags(missing: bool, fresh: bool, untouched: bool) -> AbandonedType {
    if fresh {
        if missing {
            AbandonedType::MissingMaintainersButFreshCommits
        } else {
            AbandonedType::FreshCommits
        }
    } else if untouched {
        if missing {
            AbandonedType::AbandonedAndMissingRepo
        } else {
            AbandonedType::UntouchedInAges
        }
    } else {
        if missing {
            AbandonedType::MissingMaintainers
        } else {
            AbandonedType::NotAbandoned
        }
    }
}

/// Combine the three per-signal flags into the verdict they stand for.
pub fn combine_flags(missing: bool, fresh: bool, untouched: bool) -> (t: AbandonedType)
    ensures
        t == combined_flags(missing, fresh, untouched),
{
    if fresh {
        if missing {
            AbandonedType::MissingMaintainersButFreshCommits
        } else {
            AbandonedType::FreshCommits
        }
    } else if untouched {
        if missing {
            AbandonedType::AbandonedAndMissingRepo
        } else {
            AbandonedType::UntouchedInAges
        }
    } else {
        if missing {
            AbandonedType::MissingMaintainers
        } else {
            AbandonedType::NotAbandoned
        }
    }
}

/// The verdict together with the age of the newest commit in whole days
/// (`-1` exactly when the repository is empty).
#[derive(Clone, Copy, Debug, PartialEq, Eq, Structural)]
pub struct AbandonedDetails {
    pub abandoned_type: AbandonedType,
    pub last_commit_days: i64,
}

} // verus!
