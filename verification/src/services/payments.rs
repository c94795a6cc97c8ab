//! Decisions around the payment collaborator: what to charge, whom to pay,
//! how to give money back, and what the payment record says afterwards.
//!
//! The calls themselves (authorize, capture, transfer, cancel, refund) are
//! the caller's; a failed call changes nothing here.

use vstd::prelude::*;
use vstd::string::StringExecFns;
use crate::errors::{failure, AppError, ErrorKind, Failure};
use crate::models::payment::{platform_fee, processor_fee, total_charged, FeeBreakdown, PaymentStatus};
use crate::services::lifecycle::PaymentStep;
use crate::text::str_eq;

verus! {

/// What storage knows of a payment.
#[derive(Debug, Clone, Copy, PartialEq, Eq, Structural)]
pub struct PaymentFacts {
    pub doer_id: u128,
    pub doer_payout_cents: i64,
    /// Whether the stored status is `pending`: authorized, not yet captured.
    pub pending: bool,
}

/// How money goes back to the requester.
#[derive(Debug, Clone, Copy, PartialEq, Eq, Structural)]
pub enum RefundMethod {
    /// The payment was only authorized: the authorization is cancelled.
    CancelAuthorization,
    /// The payment was captured: it is refunded in full.
    Refund,
}

/// A transfer to the doer.
#[derive(Debug, Clone, PartialEq, Eq)]
pub struct TransferOrder {
    pub amount_cents: i64,
    pub destination: String,
}

/// The fee breakdown of a price, or `None` for a price that is not positive
/// or whose charge does not fit the integer type.
pub fn escrow_breakdown(task_price_cents: i64) -> (r: Option<FeeBreakdown>)
    ensures
        r is Some <==> FeeBreakdown::price_in_range(task_price_cents as int),
        r matches Some(b) ==> b == FeeBreakdown::of(task_price_cents as int),
{
    if task_price_cents <= 0 {
        return None;
    }
    let price: i128 = task_price_cents as i128;
    let charge: i128 = ((price + price * 100 / 10_000 + 30) * 10_000 + 9_709) / 9_710;
    if charge > i64::MAX as i128 {
        return None;
    }
    Some(FeeBreakdown::calculate(task_price_cents))
}

/// Whether a stored payment status is `pending`.
pub fn is_pending(status: &str) -> (pending: bool)
    ensures
        pending == (PaymentStatus::parse(status@) == Some(PaymentStatus::Pending)),
{
    proof {
        reveal_strlit("pending");
        reveal_strlit("escrowed");
        reveal_strlit("released");
        reveal_strlit("refunded");
        reveal_strlit("failed");
    }
    str_eq(status, "pending")
}

/// The payment of a task, which the step at hand cannot do without.
pub fn require_payment(payment: Option<PaymentFacts>) -> (r: Result<PaymentFacts, AppError>)
    ensures
        match r {
            Ok(found) => payment == Some(found),
            Err(e) => payment is None && e@ == (Failure {
                kind: ErrorKind::NotFound,
                reason: "Payment not found"@,
            }),
        },
{
    match payment {
        Some(found) => Ok(found),
        None => Err(failure(ErrorKind::NotFound, "Payment not found")),
    }
}

/// How to give the money of a payment back: by cancelling an authorization
/// that was never captured, and by a refund otherwise.
pub fn refund_method(payment: &PaymentFacts) -> (method: RefundMethod)
    ensures
        method == if payment.pending {
            RefundMethod::CancelAuthorization
        } else {
            RefundMethod::Refund
        },
{
    if payment.pending {
        RefundMethod::CancelAuthorization
    } else {
        RefundMethod::Refund
    }
}

/// The transfer that releases a payment: the doer's payout, to the doer's
/// payout account. Refused where the payment or the account is missing.
pub fn release_order(payment: Option<PaymentFacts>, doer_account: Option<String>) -> (r: Result<
    TransferOrder,
    AppError,
>)
    ensures
        match r {
            Ok(order) => payment matches Some(found) && doer_account matches Some(account)
                && order.amount_cents == found.doer_payout_cents && order.destination@
                == account@,
            Err(e) => match payment {
                None => e@ == (Failure { kind: ErrorKind::NotFound, reason: "Payment not found"@ }),
                Some(_) => doer_account is None && e@ == (Failure {
                    kind: ErrorKind::PaymentError,
                    reason: "Doer has no Stripe Connect account"@,
                }),
            },
        },
{
    let found = match require_payment(payment) {
        Ok(found) => found,
        Err(e) => {
            return Err(e);
        },
    };
    match doer_account {
        Some(destination) => Ok(
            TransferOrder { amount_cents: found.doer_payout_cents, destination },
        ),
        None => Err(failure(ErrorKind::PaymentError, "Doer has no Stripe Connect account")),
    }
}

/// The status of the payment record once a payment step has succeeded.
pub open spec fn recorded_after(step: PaymentStep) -> Option<PaymentStatus> {
    match step {
        PaymentStep::NotNeeded => None,
        PaymentStep::AuthorizeEscrow(_) => Some(PaymentStatus::Pending),
        PaymentStep::Capture => Some(PaymentStatus::Escrowed),
        PaymentStep::Release => Some(PaymentStatus::Released),
        PaymentStep::Refund => Some(PaymentStatus::Refunded),
    }
}

/// The status to record for the payment once a payment step has succeeded.
pub fn status_after(step: &PaymentStep) -> (status: Option<PaymentStatus>)
    ensures
        status == recorded_after(*step),
{
    match step {
        PaymentStep::NotNeeded => None,
        PaymentStep::AuthorizeEscrow(_) => Some(PaymentStatus::Pending),
        PaymentStep::Capture => Some(PaymentStatus::Escrowed),
        PaymentStep::Release => Some(PaymentStatus::Released),
        PaymentStep::Refund => Some(PaymentStatus::Refunded),
    }
}

/// What a payment failure is introduced with, by the call that failed.
pub open spec fn failure_prefix(step: PaymentStep, method: RefundMethod) -> Seq<char> {
    match step {
        PaymentStep::NotNeeded => "Payment failed: "@,
        PaymentStep::AuthorizeEscrow(_) => "Stripe PaymentIntent creation failed: "@,
        PaymentStep::Capture => "Stripe capture failed: "@,
        PaymentStep::Release => "Stripe transfer failed: "@,
        PaymentStep::Refund => match method {
            RefundMethod::CancelAuthorization => "Stripe cancel failed: "@,
            RefundMethod::Refund => "Stripe refund failed: "@,
        },
    }
}

/// The reason to report when the collaborator fails a payment step: the
/// collaborator's own words behind a prefix that names the call. `method`
/// counts only for a refund.
pub fn failure_reason(step: &PaymentStep, method: RefundMethod, detail: &str) -> (reason: String)
    ensures
        reason@ == failure_prefix(*step, method) + detail@,
{
    let prefix: &'static str = match step {
        PaymentStep::NotNeeded => "Payment failed: ",
        PaymentStep::AuthorizeEscrow(_) => "Stripe PaymentIntent creation failed: ",
        PaymentStep::Capture => "Stripe capture failed: ",
        PaymentStep::Release => "Stripe transfer failed: ",
        PaymentStep::Refund => match method {
            RefundMethod::CancelAuthorization => "Stripe cancel failed: ",
            RefundMethod::Refund => "Stripe refund failed: ",
        },
    };
    let mut reason = String::from_str(prefix);
    reason.append(detail);
    reason
}

/// What an inbound event of the payment provider does to payment records.
#[derive(Debug, Clone, Copy, PartialEq, Eq, Structural)]
pub enum WebhookEffect {
    /// Mark the payment escrowed, if it is still pending.
    MarkEscrowed,
    MarkFailed,
    MarkReleased,
    /// Nothing is stored; the change of the account is logged.
    LogAccountUpdate,
    Ignore,
}

/// The effect of an event, by its type.
pub open spec fn effect_of(event_type: Seq<char>) -> WebhookEffect {
    if event_type == "payment_intent.succeeded"@ {
        WebhookEffect::MarkEscrowed
    } else if event_type == "payment_intent.payment_failed"@ {
        WebhookEffect::MarkFailed
    } else if event_type == "transfer.created"@ || event_type == "transfer.paid"@ {
        WebhookEffect::MarkReleased
    } else if event_type == "account.updated"@ {
        WebhookEffect::LogAccountUpdate
    } else {
        WebhookEffect::Ignore
    }
}

pub fn webhook_effect(event_type: &str) -> (effect: WebhookEffect)
    ensures
        effect == effect_of(event_type@),
{
    if str_eq(event_type, "payment_intent.succeeded") {
        WebhookEffect::MarkEscrowed
    } else if str_eq(event_type, "payment_intent.payment_failed") {
        WebhookEffect::MarkFailed
    } else if str_eq(event_type, "transfer.created") || str_eq(event_type, "transfer.paid") {
        WebhookEffect::MarkReleased
    } else if str_eq(event_type, "account.updated") {
        WebhookEffect::LogAccountUpdate
    } else {
        WebhookEffect::Ignore
    }
}

/// The requester is charged what the breakdown says, and the doer is paid
/// the price less the platform fee: between them lie exactly the two fees.
pub proof fn lemma_charge_less_payout_is_fees(price: int)
    requires
        price > 0,
    ensures
        total_charged(price) - (price - platform_fee(price)) == 2 * platform_fee(price)
            + processor_fee(price),
{
}

} // verus!
