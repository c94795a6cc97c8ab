//! Trust level evaluation.
//!
//! | Level | Requirements |
//! |-------|-------------|
//! | 0 | Registration complete |
//! | 1 | 5+ completed, 0 disputes lost, account age >= 30d |
//! | 2 | 20+ completed, 0 disputes lost, age >= 90d, >= 90% positive |
//! | 3 | 50+ completed, age >= 180d, >= 95% positive, admin-reviewed |
//!
//! The levels are not nested in their requirements, so they are tried from
//! the highest down and the first that is satisfied is the answer.

use vstd::prelude::*;
use crate::models::reputation::{lemma_rate_reaches_threshold, rate_bps, ReputationSnapshot};

verus! {

pub const SECONDS_PER_DAY: i64 = 86_400;

/// The trust level that a history qualifies for.
pub open spec fn trust_level(
    completed: int,
    disputes_lost: int,
    age_days: int,
    positive_rate_bps: int,
    admin_approved_level3: bool,
) -> int {
    if admin_approved_level3 && completed >= 50 && age_days >= 180 && positive_rate_bps >= 9_500 {
        3
    } else if completed >= 20 && disputes_lost == 0 && age_days >= 90 && positive_rate_bps
        >= 9_000 {
        2
    } else if completed >= 5 && disputes_lost == 0 && age_days >= 30 {
        1
    } else {
        0
    }
}

/// The trust level that a snapshot qualifies for at a given account age.
pub open spec fn trust_level_of(
    snapshot: ReputationSnapshot,
    age_days: int,
    admin_approved_level3: bool,
) -> int {
    trust_level(
        snapshot.total_completed as int,
        snapshot.disputes_lost as int,
        age_days,
        snapshot.positive_review_rate_bps as int,
        admin_approved_level3,
    )
}

/// Whole days from `created_at` to `now`, both in seconds; the fraction of a
/// day is dropped, towards zero.
pub open spec fn whole_days_between(created_at: int, now: int) -> int {
    if now >= created_at {
        (now - created_at) / 86_400
    } else {
        -((created_at - now) / 86_400)
    }
}

/// Compute the trust level a user qualifies for based on their actual data.
/// Level 3 additionally requires admin sign-off, so this function caps at
/// level 2 unless `admin_approved_level3` is true.
pub fn compute_trust_level(
    snapshot: &ReputationSnapshot,
    account_age_days: i64,
    admin_approved_level3: bool,
) -> (level: i16)
    ensures
        level == trust_level_of(*snapshot, account_age_days as int, admin_approved_level3),
{
    // Check Level 3
    if admin_approved_level3 && snapshot.total_completed >= 50 && account_age_days >= 180
        && snapshot.positive_review_rate_bps >= 9_500 {
        return 3;
    }
    // Check Level 2
    if snapshot.total_completed >= 20 && snapshot.disputes_lost == 0 && account_age_days >= 90
        && snapshot.positive_review_rate_bps >= 9_000 {
        return 2;
    }
    // Check Level 1
    if snapshot.total_completed >= 5 && snapshot.disputes_lost == 0 && account_age_days >= 30 {
        return 1;
    }
    0
}

/// The age of an account in whole days.
pub fn account_age_days(created_at: i64, now: i64) -> (days: i64)
    ensures
        days == whole_days_between(created_at as int, now as int),
{
    let elapsed: i128 = now as i128 - created_at as i128;
    (elapsed / (SECONDS_PER_DAY as i128)) as i64
}

/// The trust level of a user as storage knows them: a user that storage does
/// not know, or one without a reputation record, is at level 0.
pub fn compute_trust_level_for(
    created_at: Option<i64>,
    now: i64,
    snapshot: Option<&ReputationSnapshot>,
    admin_approved_level3: bool,
) -> (level: i16)
    ensures
        match (created_at, snapshot) {
            (Some(created), Some(rep)) => level == trust_level_of(
                *rep,
                whole_days_between(created as int, now as int),
                admin_approved_level3,
            ),
            _ => level == 0,
        },
{
    let created = match created_at {
        Some(ts) => ts,
        None => return 0,
    };
    let days = account_age_days(created, now);
    match snapshot {
        Some(rep) => compute_trust_level(rep, days, admin_approved_level3),
        None => 0,
    }
}

/// Whether the stored level counts as an administrator's approval for level
/// 3: it does exactly when the user already stands at level 3.
///
/// This reads approval off the stored level; a user who drops below level 3
/// loses the approval with it.
pub fn admin_approval_on_record(current_level: Option<i16>) -> (approved: bool)
    ensures
        approved == (current_level == Some(3i16)),
{
    match current_level {
        Some(level) => level == 3,
        None => false,
    }
}

/// Every history gets one of the four levels.
pub proof fn lemma_trust_level_in_range(
    completed: int,
    disputes_lost: int,
    age_days: int,
    positive_rate_bps: int,
    admin_approved_level3: bool,
)
    ensures
        0 <= trust_level(completed, disputes_lost, age_days, positive_rate_bps, admin_approved_level3)
            <= 3,
{
}

/// Level 3 is never reached without an administrator's approval.
pub proof fn lemma_level_three_needs_approval(
    completed: int,
    disputes_lost: int,
    age_days: int,
    positive_rate_bps: int,
)
    ensures
        trust_level(completed, disputes_lost, age_days, positive_rate_bps, false) <= 2,
{
}

/// With no dispute lost, more completed tasks, a longer account age or a
/// higher share of positive reviews never lowers the level.
pub proof fn lemma_trust_level_monotonic(
    completed: int,
    age_days: int,
    positive_rate_bps: int,
    more_completed: int,
    more_age_days: int,
    more_positive_rate_bps: int,
    admin_approved_level3: bool,
)
    requires
        completed <= more_completed,
        age_days <= more_age_days,
        positive_rate_bps <= more_positive_rate_bps,
    ensures
        trust_level(completed, 0, age_days, positive_rate_bps, admin_approved_level3)
            <= trust_level(
            more_completed,
            0,
            more_age_days,
            more_positive_rate_bps,
            admin_approved_level3,
        ),
{
}

/// Gaining an administrator's approval never lowers the level either.
pub proof fn lemma_approval_never_lowers(
    completed: int,
    disputes_lost: int,
    age_days: int,
    positive_rate_bps: int,
)
    ensures
        trust_level(completed, disputes_lost, age_days, positive_rate_bps, false) <= trust_level(
            completed,
            disputes_lost,
            age_days,
            positive_rate_bps,
            true,
        ),
{
}

/// A lost dispute closes levels 1 and 2: what is left is level 0, or level 3
/// for those who qualify for it.
pub proof fn lemma_lost_dispute_closes_middle_levels(
    completed: int,
    disputes_lost: int,
    age_days: int,
    positive_rate_bps: int,
    admin_approved_level3: bool,
)
    requires
        disputes_lost != 0,
    ensures
        ({
            let level = trust_level(
                completed,
                disputes_lost,
                age_days,
                positive_rate_bps,
                admin_approved_level3,
            );
            level == 0 || level == 3
        }),
{
}

/// The thresholds on the share of positive reviews are exact: a rate in
/// whole basis points reaches 95% exactly when at least 19 of every 20
/// reviews are positive, and 90% exactly when at least 9 of every 10 are.
pub proof fn lemma_positive_rate_thresholds(positive: int, reviews: int)
    requires
        reviews > 0,
    ensures
        rate_bps(positive, reviews) >= 9_500 <==> 20 * positive >= 19 * reviews,
        rate_bps(positive, reviews) >= 9_000 <==> 10 * positive >= 9 * reviews,
{
    lemma_rate_reaches_threshold(positive, reviews, 9_500);
    lemma_rate_reaches_threshold(positive, reviews, 9_000);
}

} // verus!
