//! Aggregated reputation of a user.
//!
//! Rates are whole basis points (10,000 = 100%) and average scores are whole
//! hundredths (450 = 4.50), so that every comparison is exact.

use vstd::prelude::*;

verus! {

/// 100% in basis points.
pub const FULL_RATE_BPS: i64 = 10_000;

/// `part` out of `whole` in whole basis points, rounded down; 0 where there
/// is nothing to take a part of.
pub open spec fn rate_bps(part: int, whole: int) -> int {
    if whole > 0 {
        part * 10_000 / whole
    } else {
        0
    }
}

/// The mean of `count` scores that add up to `sum`, in whole hundredths,
/// rounded down; 0 where there are no scores.
pub open spec fn average_centi(sum: int, count: int) -> int {
    if count > 0 {
        sum * 100 / count
    } else {
        0
    }
}

/// What storage counts for one user, before any rate is taken.
#[derive(Debug, Clone, Copy, PartialEq, Eq, Structural)]
pub struct ReputationCounts {
    /// Tasks completed as doer.
    pub total_completed: i64,
    /// Tasks cancelled while assigned to this user.
    pub cancelled_by_doer: i64,
    /// Disputes resolved against this user as doer.
    pub disputes_lost: i64,
    /// Completed tasks that were finished by their deadline.
    pub on_time: i64,
    /// Reviews received.
    pub review_count: i64,
    /// Reviews received with every dimension at 3 or more.
    pub positive_count: i64,
    /// Sums of the scores received, per dimension.
    pub sum_reliability: i64,
    pub sum_quality: i64,
    pub sum_communication: i64,
    pub sum_integrity: i64,
}

/// Aggregated read-only view of a user's history.
#[derive(Debug, Clone, Copy, PartialEq, Eq, Structural)]
pub struct ReputationSnapshot {
    pub total_completed: i64,
    pub cancelled_by_doer: i64,
    pub disputes_lost: i64,
    pub completion_rate_bps: i64,
    pub on_time_rate_bps: i64,
    pub avg_reliability_centi: i64,
    pub avg_quality_centi: i64,
    pub avg_communication_centi: i64,
    pub avg_integrity_centi: i64,
    pub review_count: i64,
    pub positive_review_rate_bps: i64,
}

/// Whether `sum` can be the sum of `count` scores between 1 and 5.
pub open spec fn plausible_sum(sum: int, count: int) -> bool {
    count <= sum <= 5 * count
}

impl ReputationCounts {
    /// The counts fit together: none is negative, no part exceeds its whole,
    /// every score sum is one that scores between 1 and 5 can have, and the
    /// outcomes add up within the integer type.
    pub open spec fn wf(self) -> bool {
        &&& 0 <= self.total_completed
        &&& 0 <= self.cancelled_by_doer
        &&& 0 <= self.disputes_lost
        &&& 0 <= self.on_time <= self.total_completed
        &&& 0 <= self.positive_count <= self.review_count
        &&& self.total_completed + self.cancelled_by_doer + self.disputes_lost <= i64::MAX
        &&& plausible_sum(self.sum_reliability as int, self.review_count as int)
        &&& plausible_sum(self.sum_quality as int, self.review_count as int)
        &&& plausible_sum(self.sum_communication as int, self.review_count as int)
        &&& plausible_sum(self.sum_integrity as int, self.review_count as int)
    }

    /// The snapshot that these counts amount to.
    pub open spec fn summary(self) -> ReputationSnapshot {
        ReputationSnapshot {
            total_completed: self.total_completed,
            cancelled_by_doer: self.cancelled_by_doer,
            disputes_lost: self.disputes_lost,
            completion_rate_bps: rate_bps(
                self.total_completed as int,
                self.total_completed + self.cancelled_by_doer + self.disputes_lost,
            ) as i64,
            on_time_rate_bps: rate_bps(self.on_time as int, self.total_completed as int) as i64,
            avg_reliability_centi: average_centi(
                self.sum_reliability as int,
                self.review_count as int,
            ) as i64,
            avg_quality_centi: average_centi(
                self.sum_quality as int,
                self.review_count as int,
            ) as i64,
            avg_communication_centi: average_centi(
                self.sum_communication as int,
                self.review_count as int,
            ) as i64,
            avg_integrity_centi: average_centi(
                self.sum_integrity as int,
                self.review_count as int,
            ) as i64,
            review_count: self.review_count,
            positive_review_rate_bps: rate_bps(
                self.positive_count as int,
                self.review_count as int,
            ) as i64,
        }
    }

    /// Whether the counts fit together.
    pub fn is_consistent(&self) -> (ok: bool)
        ensures
            ok == self.wf(),
    {
        let outcomes: i128 = self.total_completed as i128 + self.cancelled_by_doer as i128
            + self.disputes_lost as i128;
        let count: i128 = self.review_count as i128;
        self.total_completed >= 0 && self.cancelled_by_doer >= 0 && self.disputes_lost >= 0
            && self.on_time >= 0 && self.on_time <= self.total_completed && self.positive_count
            >= 0 && self.positive_count <= self.review_count && outcomes <= i64::MAX as i128
            && sum_is_plausible(self.sum_reliability, count) && sum_is_plausible(
            self.sum_quality,
            count,
        ) && sum_is_plausible(self.sum_communication, count) && sum_is_plausible(
            self.sum_integrity,
            count,
        )
    }

    /// Takes the rates and averages of consistent counts.
    pub fn summarize(&self) -> (snapshot: ReputationSnapshot)
        requires
            self.wf(),
        ensures
            snapshot == self.summary(),
            snapshot.wf(),
    {
        let outcomes: i64 = self.total_completed + self.cancelled_by_doer + self.disputes_lost;
        proof {
            lemma_rate_bounds(self.total_completed as int, outcomes as int);
            lemma_rate_bounds(self.on_time as int, self.total_completed as int);
            lemma_rate_bounds(self.positive_count as int, self.review_count as int);
            lemma_average_bounds(self.sum_reliability as int, self.review_count as int);
            lemma_average_bounds(self.sum_quality as int, self.review_count as int);
            lemma_average_bounds(self.sum_communication as int, self.review_count as int);
            lemma_average_bounds(self.sum_integrity as int, self.review_count as int);
        }
        ReputationSnapshot {
            total_completed: self.total_completed,
            cancelled_by_doer: self.cancelled_by_doer,
            disputes_lost: self.disputes_lost,
            completion_rate_bps: take_rate_bps(self.total_completed, outcomes),
            on_time_rate_bps: take_rate_bps(self.on_time, self.total_completed),
            avg_reliability_centi: take_average_centi(self.sum_reliability, self.review_count),
            avg_quality_centi: take_average_centi(self.sum_quality, self.review_count),
            avg_communication_centi: take_average_centi(self.sum_communication, self.review_count),
            avg_integrity_centi: take_average_centi(self.sum_integrity, self.review_count),
            review_count: self.review_count,
            positive_review_rate_bps: take_rate_bps(self.positive_count, self.review_count),
        }
    }
}

impl ReputationSnapshot {
    /// Counts are not negative, rates lie between 0 and 100%, and averages
    /// are 0 (no reviews) or between 1.00 and 5.00.
    pub open spec fn wf(self) -> bool {
        &&& 0 <= self.total_completed
        &&& 0 <= self.cancelled_by_doer
        &&& 0 <= self.disputes_lost
        &&& 0 <= self.review_count
        &&& 0 <= self.completion_rate_bps <= 10_000
        &&& 0 <= self.on_time_rate_bps <= 10_000
        &&& 0 <= self.positive_review_rate_bps <= 10_000
        &&& 0 <= self.avg_reliability_centi <= 500
        &&& 0 <= self.avg_quality_centi <= 500
        &&& 0 <= self.avg_communication_centi <= 500
        &&& 0 <= self.avg_integrity_centi <= 500
    }
}

fn sum_is_plausible(sum: i64, count: i128) -> (ok: bool)
    requires
        i64::MIN <= count <= i64::MAX,
    ensures
        ok == plausible_sum(sum as int, count as int),
{
    count <= sum as i128 && sum as i128 <= 5 * count
}

/// `part` out of `whole` in whole basis points.
fn take_rate_bps(part: i64, whole: i64) -> (bps: i64)
    requires
        0 <= part <= whole,
    ensures
        bps == rate_bps(part as int, whole as int),
        0 <= bps <= 10_000,
{
    proof {
        lemma_rate_bounds(part as int, whole as int);
    }
    if whole > 0 {
        ((part as i128) * 10_000 / (whole as i128)) as i64
    } else {
        0
    }
}

/// The mean of `count` scores that add up to `sum`, in whole hundredths.
fn take_average_centi(sum: i64, count: i64) -> (centi: i64)
    requires
        plausible_sum(sum as int, count as int),
    ensures
        centi == average_centi(sum as int, count as int),
        0 <= centi <= 500,
{
    proof {
        lemma_average_bounds(sum as int, count as int);
    }
    if count > 0 {
        ((sum as i128) * 100 / (count as i128)) as i64
    } else {
        0
    }
}

/// A part of a whole is between 0 and 100% of it.
pub proof fn lemma_rate_bounds(part: int, whole: int)
    requires
        0 <= part <= whole,
    ensures
        0 <= rate_bps(part, whole) <= 10_000,
{
    if whole > 0 {
        assert(0 <= part * 10_000 / whole <= 10_000) by (nonlinear_arith)
            requires
                0 <= part <= whole,
                whole > 0,
        ;
    }
}

/// The mean of scores between 1 and 5 is between 1.00 and 5.00, and 0 where
/// there are none.
pub proof fn lemma_average_bounds(sum: int, count: int)
    requires
        plausible_sum(sum, count),
    ensures
        0 <= average_centi(sum, count) <= 500,
        count > 0 ==> 100 <= average_centi(sum, count),
{
    if count > 0 {
        assert(100 <= sum * 100 / count <= 500) by (nonlinear_arith)
            requires
                count <= sum <= 5 * count,
                count > 0,
        ;
    }
}

/// A rate in whole basis points reaches a whole number of basis points
/// exactly when the fraction itself does: rounding down loses nothing that a
/// threshold could ask for.
pub proof fn lemma_rate_reaches_threshold(part: int, whole: int, threshold_bps: int)
    requires
        whole > 0,
    ensures
        rate_bps(part, whole) >= threshold_bps <==> part * 10_000 >= threshold_bps * whole,
{
    assert((part * 10_000 / whole >= threshold_bps) <==> (part * 10_000 >= threshold_bps * whole))
        by (nonlinear_arith)
        requires
            whole > 0,
    ;
}

} // verus!
