//! Payment status and fee calculation.
//!
//! Two separate fees, never conflated:
//!
//! - the platform fee: exactly 1% of the task price, rounded down;
//! - the processor fee: 2.9% + 30 cents of the amount charged.
//!
//! The requester pays `task_price + platform_fee + processor_fee`.
//! The doer receives `task_price - platform_fee`.
//!
//! All arithmetic is on integer cents.

use vstd::prelude::*;
use crate::text::str_eq;

verus! {

/// Platform fee in basis points. 100 basis points = 1%.
pub const GIDEON_FEE_BPS: u64 = 100;

/// The processor's percentage cut in basis points (2.9%).
pub const STRIPE_RATE_BPS: u64 = 290;

/// The processor's fixed cut per charge, in cents.
pub const STRIPE_FIXED_CENTS: u64 = 30;

/// Payment status.
#[derive(Debug, Clone, Copy, PartialEq, Eq, Structural)]
pub enum PaymentStatus {
    Pending,
    Escrowed,
    Released,
    Refunded,
    Failed,
}

impl PaymentStatus {
    pub open spec fn name(self) -> Seq<char> {
        match self {
            PaymentStatus::Pending => "pending"@,
            PaymentStatus::Escrowed => "escrowed"@,
            PaymentStatus::Released => "released"@,
            PaymentStatus::Refunded => "refunded"@,
            PaymentStatus::Failed => "failed"@,
        }
    }

    pub open spec fn parse(s: Seq<char>) -> Option<PaymentStatus> {
        if s == "pending"@ {
            Some(PaymentStatus::Pending)
        } else if s == "escrowed"@ {
            Some(PaymentStatus::Escrowed)
        } else if s == "released"@ {
            Some(PaymentStatus::Released)
        } else if s == "refunded"@ {
            Some(PaymentStatus::Refunded)
        } else if s == "failed"@ {
            Some(PaymentStatus::Failed)
        } else {
            None
        }
    }

    pub fn as_str(&self) -> (s: &'static str)
        ensures
            s@ == self.name(),
    {
        match self {
            PaymentStatus::Pending => "pending",
            PaymentStatus::Escrowed => "escrowed",
            PaymentStatus::Released => "released",
            PaymentStatus::Refunded => "refunded",
            PaymentStatus::Failed => "failed",
        }
    }

    pub fn from_str(s: &str) -> (status: Option<PaymentStatus>)
        ensures
            status == PaymentStatus::parse(s@),
    {
        if str_eq(s, "pending") {
            Some(PaymentStatus::Pending)
        } else if str_eq(s, "escrowed") {
            Some(PaymentStatus::Escrowed)
        } else if str_eq(s, "released") {
            Some(PaymentStatus::Released)
        } else if str_eq(s, "refunded") {
            Some(PaymentStatus::Refunded)
        } else if str_eq(s, "failed") {
            Some(PaymentStatus::Failed)
        } else {
            None
        }
    }
}

/// Every payment status survives being written as its name and read back.
pub proof fn lemma_payment_status_round_trip(status: PaymentStatus)
    ensures
        PaymentStatus::parse(status.name()) == Some(status),
{
    reveal_strlit("pending");
    reveal_strlit("escrowed");
    reveal_strlit("released");
    reveal_strlit("refunded");
    reveal_strlit("failed");
    assert("pending"@.len() == 7 && "failed"@.len() == 6);
    assert("escrowed"@[2] == 'c' && "released"@[2] == 'l' && "refunded"@[2] == 'f');
}

/// The platform's cut of a price: 1%, rounded down.
pub open spec fn platform_fee(price: int) -> int {
    price * 100 / 10000
}

/// What the platform must retain of a charge: the price and its own fee.
pub open spec fn subtotal(price: int) -> int {
    price + platform_fee(price)
}

/// The least amount to charge such that, once the processor has taken 2.9%
/// of it and 30 cents, at least the subtotal is left.
pub open spec fn total_charged(price: int) -> int {
    ((subtotal(price) + 30) * 10000 + 9709) / 9710
}

/// The processor's share of the amount charged.
pub open spec fn processor_fee(price: int) -> int {
    total_charged(price) - subtotal(price)
}

/// Fee calculation result.
#[derive(Debug, Clone, Copy, PartialEq, Eq, Structural)]
pub struct FeeBreakdown {
    pub task_price_cents: i64,
    pub gideon_fee_cents: i64,
    pub doer_payout_cents: i64,
    pub stripe_fee_cents: i64,
    pub total_charged_cents: i64,
}

impl FeeBreakdown {
    /// The breakdown is the one that `calculate` gives for its price.
    pub open spec fn is_breakdown_of(self, price: int) -> bool {
        &&& self.task_price_cents == price
        &&& self.gideon_fee_cents == platform_fee(price)
        &&& self.doer_payout_cents == price - platform_fee(price)
        &&& self.stripe_fee_cents == processor_fee(price)
        &&& self.total_charged_cents == total_charged(price)
    }

    /// The breakdown of a price.
    pub open spec fn of(price: int) -> FeeBreakdown {
        FeeBreakdown {
            task_price_cents: price as i64,
            gideon_fee_cents: platform_fee(price) as i64,
            doer_payout_cents: (price - platform_fee(price)) as i64,
            stripe_fee_cents: processor_fee(price) as i64,
            total_charged_cents: total_charged(price) as i64,
        }
    }

    /// The price is positive and its charge fits the integer type.
    pub open spec fn price_in_range(price: int) -> bool {
        0 < price && total_charged(price) <= i64::MAX
    }

    /// Calculate the full fee breakdown for a given task price.
    ///
    /// The price must be positive; rejecting prices outside the marketplace's
    /// limits is the caller's business.
    pub fn calculate(task_price_cents: i64) -> (b: FeeBreakdown)
        requires
            FeeBreakdown::price_in_range(task_price_cents as int),
        ensures
            b.is_breakdown_of(task_price_cents as int),
            b == FeeBreakdown::of(task_price_cents as int),
    {
        let price: i128 = task_price_cents as i128;

        // Platform fee: exactly 1%, integer division rounds down (favors user)
        let gideon_fee: i128 = price * (GIDEON_FEE_BPS as i128) / 10_000;
        let doer_payout: i128 = price - gideon_fee;
        let subtotal: i128 = price + gideon_fee;

        // Processor fee: solve for the total so that the processor takes its
        // cut and platform and doer still receive exact amounts.
        let keep_bps: i128 = 10_000 - (STRIPE_RATE_BPS as i128);
        let numerator: i128 = (subtotal + (STRIPE_FIXED_CENTS as i128)) * 10_000;
        let total_charged: i128 = (numerator + keep_bps - 1) / keep_bps;  // ceiling division
        let stripe_fee: i128 = total_charged - subtotal;

        proof {
            lemma_fee_invariants(task_price_cents as int);
        }
        FeeBreakdown {
            task_price_cents,
            gideon_fee_cents: gideon_fee as i64,
            doer_payout_cents: doer_payout as i64,
            stripe_fee_cents: stripe_fee as i64,
            total_charged_cents: total_charged as i64,
        }
    }
}

/// For every positive price: payout and platform fee add up to the price,
/// the charge is price plus both fees, the platform fee is the whole-cent
/// hundredth of the price, and no amount is negative.
pub proof fn lemma_fee_invariants(price: int)
    requires
        price > 0,
    ensures
        (price - platform_fee(price)) + platform_fee(price) == price,
        total_charged(price) == price + platform_fee(price) + processor_fee(price),
        platform_fee(price) == price / 100,
        0 <= platform_fee(price) <= price,
        price - platform_fee(price) >= 0,
        processor_fee(price) >= 30,
        total_charged(price) >= price,
{
}

/// The charge covers the subtotal: after the processor keeps 2.9% and 30
/// cents, no less than the subtotal is left. It is also the least such
/// charge: one cent less would fall short.
pub proof fn lemma_charge_covers_subtotal(price: int)
    requires
        price > 0,
    ensures
        total_charged(price) * 9710 >= (subtotal(price) + 30) * 10000,
        (total_charged(price) - 1) * 9710 < (subtotal(price) + 30) * 10000,
{
}

/// A higher price never lowers any of the amounts.
pub proof fn lemma_fees_monotonic(low: int, high: int)
    requires
        0 < low <= high,
    ensures
        platform_fee(low) <= platform_fee(high),
        low - platform_fee(low) <= high - platform_fee(high),
        total_charged(low) <= total_charged(high),
{
}

} // verus!
