//! Rendering a verdict into a report row.
//!
//! A quiet verdict — not abandoned, or fresh commits alone — produces no
//! row. Every other verdict produces exactly one row: the repository's
//! display name, the literal `true`, the age of the newest commit in whole
//! days, and a free-text reason chosen by exact match on the verdict.

use vstd::prelude::*;
use vstd::string::StringExecFns;

use crate::classifier::ROTTEN_DAYS;
use crate::flags::{AbandonedDetails, AbandonedType};
use crate::repository::RepositoryRecord;

verus! {

/// The decimal character for one digit value.
pub open spec fn spec_digit_char(d: int) -> char {
    if d == 0 {
        '0'
    } else if d == 1 {
        '1'
    } else if d == 2 {
        '2'
    } else if d == 3 {
        '3'
    } else if d == 4 {
        '4'
    } else if d == 5 {
        '5'
    } else if d == 6 {
        '6'
    } else if d == 7 {
        '7'
    } else if d == 8 {
        '8'
    } else {
        '9'
    }
}

/// The decimal digits of a non-negative number, most significant first,
/// without leading zeros (a lone zero for zero itself).
pub open spec fn spec_decimal_nat(n: nat) -> Seq<char>
    decreases n,
{
    if n < 10 {
        seq![spec_digit_char(n as int)]
    } else {
        spec_decimal_nat(n / 10) + seq![spec_digit_char((n % 10) as int)]
    }
}

/// The decimal rendering of an integer, a leading minus sign included when
/// it is negative.
pub open spec fn spec_decimal(n: int) -> Seq<char> {
    if n < 0 {
        seq!['-'] + spec_decimal_nat((-n) as nat)
    } else {
        spec_decimal_nat(n as nat)
    }
}

/// Append the decimal character of one digit value.
fn append_digit(s: &mut String, d: u64)
    requires
        d < 10,
    ensures
        final(s)@ == old(s)@ + seq![spec_digit_char(d as int)],
{
    if d == 0 {
        s.append("0");
        proof {
            reveal_strlit("0");
            assert("0"@ =~= seq![spec_digit_char(d as int)]);
        }
    } else if d == 1 {
        s.append("1");
        proof {
            reveal_strlit("1");
            assert("1"@ =~= seq![spec_digit_char(d as int)]);
        }
    } else if d == 2 {
        s.append("2");
        proof {
            reveal_strlit("2");
            assert("2"@ =~= seq![spec_digit_char(d as int)]);
        }
    } else if d == 3 {
        s.append("3");
        proof {
            reveal_strlit("3");
            assert("3"@ =~= seq![spec_digit_char(d as int)]);
        }
    } else if d == 4 {
        s.append("4");
        proof {
            reveal_strlit("4");
            assert("4"@ =~= seq![spec_digit_char(d as int)]);
        }
    } else if d == 5 {
        s.append("5");
        proof {
            reveal_strlit("5");
            assert("5"@ =~= seq![spec_digit_char(d as int)]);
        }
    } else if d == 6 {
        s.append("6");
        proof {
            reveal_strlit("6");
            assert("6"@ =~= seq![spec_digit_char(d as int)]);
        }
    } else if d == 7 {
        s.append("7");
        proof {
            reveal_strlit("7");
            assert("7"@ =~= seq![spec_digit_char(d as int)]);
        }
    } else if d == 8 {
        s.append("8");
        proof {
            reveal_strlit("8");
            assert("8"@ =~= seq![spec_digit_char(d as int)]);
        }
    } else {
        s.append("9");
        proof {
            reveal_strlit("9");
            assert("9"@ =~= seq![spec_digit_char(d as int)]);
        }
    }
}

/// Append the decimal digits of a non-negative number.
fn append_decimal_u64(s: &mut String, n: u64)
    ensures
        final(s)@ == old(s)@ + spec_decimal_nat(n as nat),
    decreases n,
{
    if n < 10 {
        append_digit(s, n);
    } else {
        append_decimal_u64(s, n / 10);
        append_digit(s, n % 10);
        proof {
            assert(s@ =~= old(s)@ + spec_decimal_nat(n as nat));
        }
    }
}

/// Render an integer in decimal, a leading minus sign included when it is
/// negative.
pub fn i64_to_string(n: i64) -> (r: String)
    ensures
        r@ == spec_decimal(n as int),
{
    let mut s = String::new();
    if n < 0 {
        s.append("-");
        let mag: u64 = ((-(n + 1)) as u64) + 1;
        proof {
            assert(mag as int == -(n as int));
        }
        append_decimal_u64(&mut s, mag);
        proof {
            reveal_strlit("-");
            assert("-"@ =~= seq!['-']);
            assert(s@ =~= spec_decimal(n as int));
        }
    } else {
        append_decimal_u64(&mut s, n as u64);
        proof {
            assert(s@ =~= spec_decimal(n as int));
        }
    }
    s
}

/// The header row of the report.
pub open spec fn spec_csv_header() -> Seq<char> {
    "\"Repository\",\"Is Abandoned?\",\"Days of Silence\",\"Notes\"\n"@
}

/// The header row of the report: one quoted column title per column.
pub fn csv_header() -> (r: String)
    ensures
        r@ == spec_csv_header(),
{
    String::from_str("\"Repository\",\"Is Abandoned?\",\"Days of Silence\",\"Notes\"\n")
}

/// The name a repository is reported under: its `owner/name` form when the
/// listing carried one, its bare name otherwise.
pub open spec fn spec_display_name(repo: RepositoryRecord) -> Seq<char> {
    match repo.full_name {
        Some(f) => f@,
        None => repo.name@,
    }
}

/// One report row: the display name and the reason quoted, the literal
/// `true` and the day count bare, all comma-separated.
pub open spec fn spec_csv_line(name: Seq<char>, days: int, reason: Seq<char>) -> Seq<char> {
    "\""@ + name + "\","@ + "true"@ + ","@ + spec_decimal(days) + ",\""@ + reason + "\"\n"@
}

/// Render one report row for a repository whose verdict was not quiet.
pub fn csv_line(repo: &RepositoryRecord, details: &AbandonedDetails, reason: String) -> (r: String)
    ensures
        r@ == spec_csv_line(
            spec_display_name(*repo),
            details.last_commit_days as int,
            reason@,
        ),
{
    let mut s = String::from_str("\"");
    match &repo.full_name {
        Some(f) => s.append(f.as_str()),
        None => s.append(repo.name.as_str()),
    }
    s.append("\",");
    s.append("true");
    s.append(",");
    let days = i64_to_string(details.last_commit_days);
    s.append(days.as_str());
    s.append(",\"");
    s.append(reason.as_str());
    s.append("\"\n");
    proof {
        assert(s@ =~= spec_csv_line(
            spec_display_name(*repo),
            details.last_commit_days as int,
            reason@,
        ));
    }
    s
}

/// A quiet verdict produces no report row.
pub open spec fn spec_quiet(t: AbandonedType) -> bool {
    t == AbandonedType::NotAbandoned || t == AbandonedType::FreshCommits
}

/// The free-text reason reported for a verdict; empty for a quiet one.
pub open spec fn spec_reason(t: AbandonedType, name: Seq<char>) -> Seq<char> {
    match t {
        AbandonedType::MissingMaintainersButFreshCommits => "Repo "@ + name
            + " does have fresh commits, but they were made by someone who is not a member of this org."@,
        AbandonedType::AbandonedAndMissingRepo => "Repo "@ + name
            + " hasn't been touched in more than "@ + spec_decimal(ROTTEN_DAYS as int)
            + " days, and the last person to commit to it is not presently in the org."@,
        AbandonedType::MissingMaintainers => "Repo "@ + name
            + "'s last commit was not made by a member of this org."@,
        AbandonedType::EmptyRepo => "Repo "@ + name + " is empty."@,
        AbandonedType::UntouchedInAges => "Repo "@ + name
            + " hasn't been touched in more than "@ + spec_decimal(ROTTEN_DAYS as int)
            + " days."@,
        AbandonedType::NotAbandoned => Seq::empty(),
        AbandonedType::FreshCommits => Seq::empty(),
    }
}

/// Render the report row for one classified repository, or `None` exactly
/// when its verdict is quiet. The reason names the repository by its bare
/// name; the row's first column uses the display name.
pub fn get_report_line(repo: &RepositoryRecord, details: &AbandonedDetails) -> (r: Option<String>)
    ensures
        match r {
            None => spec_quiet(details.abandoned_type),
            Some(line) => !spec_quiet(details.abandoned_type) && line@ == spec_csv_line(
                spec_display_name(*repo),
                details.last_commit_days as int,
                spec_reason(details.abandoned_type, repo.name@),
            ),
        },
{
    let reason: String = match details.abandoned_type {
        AbandonedType::MissingMaintainersButFreshCommits => {
            let mut s = String::from_str("Repo ");
            s.append(repo.name.as_str());
            s.append(
                " does have fresh commits, but they were made by someone who is not a member of this org.",
            );
            s
        },
        AbandonedType::AbandonedAndMissingRepo => {
            let mut s = String::from_str("Repo ");
            s.append(repo.name.as_str());
            s.append(" hasn't been touched in more than ");
            let days = i64_to_string(ROTTEN_DAYS);
            s.append(days.as_str());
            s.append(" days, and the last person to commit to it is not presently in the org.");
            s
        },
        AbandonedType::MissingMaintainers => {
            let mut s = String::from_str("Repo ");
            s.append(repo.name.as_str());
            s.append("'s last commit was not made by a member of this org.");
            s
        },
        AbandonedType::EmptyRepo => {
            let mut s = String::from_str("Repo ");
            s.append(repo.name.as_str());
            s.append(" is empty.");
            s
        },
        AbandonedType::UntouchedInAges => {
            let mut s = String::from_str("Repo ");
            s.append(repo.name.as_str());
            s.append(" hasn't been touched in more than ");
            let days = i64_to_string(ROTTEN_DAYS);
            s.append(days.as_str());
            s.append(" days.");
            s
        },
        AbandonedType::NotAbandoned => {
            return None;
        },
        AbandonedType::FreshCommits => {
            return None;
        },
    };
    proof {
        assert(reason@ =~= spec_reason(details.abandoned_type, repo.name@));
    }
    Some(csv_line(repo, details, reason))
}

} // verus!
