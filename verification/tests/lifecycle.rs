use gideon_tasks_api::auth::middleware::AuthUser;
use gideon_tasks_api::errors::AppError;
use gideon_tasks_api::models::payment::{FeeBreakdown, PaymentStatus};
use gideon_tasks_api::models::task::TaskStatus;
use gideon_tasks_api::routes::admin::{paginate_audit_log, RejectRequest, ResolveDisputeRequest};
use gideon_tasks_api::routes::tasks::{publish_request, Page};
use gideon_tasks_api::services::lifecycle::{
    begin, commit_event, payment_event, plan, settle_commit, should_auto_suspend, step, Action, Event, FollowUps, LifecyclePlan, LifecycleRequest,
    Operation, PaymentStep, Phase, PlanOutcome, Resolution, Role, TaskFacts,
};
use gideon_tasks_api::services::moderation::{ModerationClassifier, ModerationResult};
use gideon_tasks_api::services::payments::{
    failure_reason, is_pending, refund_method, release_order, require_payment, status_after,
    webhook_effect, PaymentFacts, RefundMethod, TransferOrder, WebhookEffect,
};

const REQUESTER: u128 = 11;
const DOER: u128 = 22;
const STRANGER: u128 = 33;

fn user(id: u128, level: i16) -> AuthUser {
    AuthUser { user_id: id, is_admin: false, trust_level: level }
}

fn admin() -> AuthUser {
    AuthUser { user_id: 99, is_admin: true, trust_level: 0 }
}

fn task(status: TaskStatus) -> TaskFacts {
    TaskFacts { status, requester_id: REQUESTER, assigned_doer_id: Some(DOER), price_cents: 10_000 }
}

fn assign(applicant: Option<u128>, has_payment_method: bool) -> LifecycleRequest {
    LifecycleRequest::Assign { applicant, has_payment_method }
}

#[test]
fn operations_know_their_role_and_target() {
    let table = [
        (Operation::Publish, Role::Requester, TaskStatus::PendingReview),
        (Operation::Assign, Role::Requester, TaskStatus::Assigned),
        (Operation::Start, Role::AssignedDoer, TaskStatus::InProgress),
        (Operation::Submit, Role::AssignedDoer, TaskStatus::Submitted),
        (Operation::Approve, Role::Requester, TaskStatus::Completed),
        (Operation::Dispute, Role::Requester, TaskStatus::Disputed),
        (Operation::Resolve, Role::Admin, TaskStatus::Resolved),
        (Operation::Cancel, Role::Requester, TaskStatus::Cancelled),
        (Operation::ModerationApprove, Role::Admin, TaskStatus::Published),
        (Operation::ModerationReject, Role::Admin, TaskStatus::Rejected),
    ];
    for (operation, role, target) in table {
        assert_eq!(operation.required_role(), role);
        assert_eq!(operation.target_status(), target);
    }
}

#[test]
fn publishing_clean_content_goes_straight_to_published() {
    let request = LifecycleRequest::Publish { verdict: ModerationResult::Clean };
    let planned = plan(&request, Some(&task(TaskStatus::Draft)), &user(REQUESTER, 1)).unwrap();
    assert_eq!(
        planned,
        LifecyclePlan {
            operation: Operation::Publish,
            from: TaskStatus::Draft,
            to: TaskStatus::Published,
            payment: PaymentStep::NotNeeded,
            assignee: None,
            outcome: PlanOutcome::Done,
            reason: None,
        }
    );
    let (phase, action) = begin(&planned);
    assert_eq!(phase, Phase::AwaitingCommit);
    assert_eq!(action, Action::Commit { expected: TaskStatus::Draft, status: TaskStatus::Published });
    let (phase, action) = step(&planned, phase, Event::Committed);
    assert_eq!(phase, Phase::Finished);
    assert_eq!(action, Action::Finish(Ok(TaskStatus::Published)));
}

#[test]
fn publishing_rejected_content_persists_rejected_and_surfaces_the_reason() {
    let request = LifecycleRequest::Publish { verdict: ModerationResult::Rejected("sexually explicit content".into()) };
    let planned = plan(&request, Some(&task(TaskStatus::Draft)), &user(REQUESTER, 1)).unwrap();
    assert_eq!(planned.to, TaskStatus::Rejected);
    assert_eq!(planned.outcome, PlanOutcome::ContentRejected);
    assert_eq!(planned.reason, Some("sexually explicit content".to_string()));
    let (phase, action) = begin(&planned);
    assert_eq!(action, Action::Commit { expected: TaskStatus::Draft, status: TaskStatus::Rejected });
    let (_, action) = step(&planned, phase, Event::Committed);
    assert_eq!(action, Action::Finish(Err(AppError::ContentRejected("sexually explicit content".into()))));
}

#[test]
fn publishing_flagged_content_waits_in_pending_review() {
    let request = LifecycleRequest::Publish { verdict: ModerationResult::Flagged("potentially coded language".into()) };
    let planned = plan(&request, Some(&task(TaskStatus::Draft)), &user(REQUESTER, 1)).unwrap();
    assert_eq!(planned.to, TaskStatus::PendingReview);
    let (phase, _) = begin(&planned);
    let (_, action) = step(&planned, phase, Event::Committed);
    assert_eq!(action, Action::Finish(Err(AppError::ContentFlagged("potentially coded language".into()))));
}

#[test]
fn publish_request_judges_title_and_description_together() {
    let classifier = ModerationClassifier::new().unwrap();
    assert_eq!(
        publish_request(&classifier, "Garden work this weekend", "Mow the lawn and trim the hedges"),
        LifecycleRequest::Publish { verdict: ModerationResult::Clean }
    );
    // Each part alone is short enough to be vague; together they are not.
    assert_eq!(
        publish_request(&classifier, "Garden work", "Mow the lawn"),
        LifecycleRequest::Publish { verdict: ModerationResult::Clean }
    );
    assert_eq!(
        publish_request(&classifier, "Garden work this weekend", "Reach me at 555-123-4567"),
        LifecycleRequest::Publish {
            verdict: ModerationResult::Rejected("contact information not allowed".into())
        }
    );
    // The blank between the parts keeps words apart.
    assert_eq!(
        publish_request(&classifier, "Selling a lawn mower cheap, buy", "drug store receipts included"),
        LifecycleRequest::Publish {
            verdict: ModerationResult::Rejected("violates prohibited use policy".into())
        }
    );
}

#[test]
fn checks_run_in_order() {
    let request = assign(None, false);
    // task missing
    assert_eq!(plan(&request, None, &user(STRANGER, 0)), Err(AppError::NotFound("Task not found".into())));
    // wrong actor beats wrong status
    assert_eq!(
        plan(&request, Some(&task(TaskStatus::Draft)), &user(STRANGER, 0)),
        Err(AppError::Forbidden("Not your task".into()))
    );
    // wrong status beats everything about the assignment
    assert_eq!(
        plan(&request, Some(&task(TaskStatus::Draft)), &user(REQUESTER, 0)),
        Err(AppError::InvalidTransition("Cannot transition from draft to assigned".into()))
    );
    let mut expensive = task(TaskStatus::Published);
    expensive.price_cents = 50_001;
    assert_eq!(
        plan(&request, Some(&expensive), &user(REQUESTER, 1)),
        Err(AppError::TrustLevelInsufficient("Task value exceeds the maximum for your trust level".into()))
    );
    let mut cheap = task(TaskStatus::Published);
    cheap.price_cents = 499;
    assert_eq!(
        plan(&request, Some(&cheap), &user(REQUESTER, 1)),
        Err(AppError::BadRequest("Task price is below the minimum".into()))
    );
    assert_eq!(
        plan(&request, Some(&task(TaskStatus::Published)), &user(REQUESTER, 1)),
        Err(AppError::NotFound("Application not found".into()))
    );
    assert_eq!(
        plan(&assign(Some(DOER), false), Some(&task(TaskStatus::Published)), &user(REQUESTER, 1)),
        Err(AppError::PaymentError("Requester has no payment method on file".into()))
    );
}

#[test]
fn assignment_authorizes_the_full_charge_before_anything_is_persisted() {
    let planned = plan(&assign(Some(DOER), true), Some(&task(TaskStatus::Published)), &user(REQUESTER, 1)).unwrap();
    assert_eq!(planned.assignee, Some(DOER));
    assert_eq!(planned.payment, PaymentStep::AuthorizeEscrow(FeeBreakdown::calculate(10_000)));
    let (phase, action) = begin(&planned);
    assert_eq!(phase, Phase::AwaitingPayment);
    assert_eq!(action, Action::CallPayment(planned.payment));
    let (phase, action) = step(&planned, phase, Event::PaymentSucceeded);
    assert_eq!(phase, Phase::AwaitingCommit);
    assert_eq!(action, Action::Commit { expected: TaskStatus::Published, status: TaskStatus::Assigned });
    let (phase, action) = step(&planned, phase, Event::Committed);
    assert_eq!(phase, Phase::Finished);
    assert_eq!(action, Action::Finish(Ok(TaskStatus::Assigned)));
}

#[test]
fn failed_payment_ends_the_operation_without_a_commit() {
    let planned = plan(&LifecycleRequest::Start, Some(&task(TaskStatus::Assigned)), &user(DOER, 0)).unwrap();
    assert_eq!(planned.payment, PaymentStep::Capture);
    let (phase, _) = begin(&planned);
    let (phase, action) = step(&planned, phase, Event::PaymentFailed("card declined".into()));
    assert_eq!(phase, Phase::Finished);
    assert_eq!(action, Action::Finish(Err(AppError::PaymentError("card declined".into()))));
    // Nothing that is reported afterwards brings a commit back.
    for event in [Event::PaymentSucceeded, Event::Committed, Event::CommitConflict] {
        let (phase, action) = step(&planned, phase, event);
        assert_eq!(phase, Phase::Finished);
        assert_eq!(action, Action::Finish(Err(AppError::Internal("Unexpected event".into()))));
    }
}

#[test]
fn lost_race_is_a_conflict() {
    let planned = plan(&LifecycleRequest::Submit, Some(&task(TaskStatus::InProgress)), &user(DOER, 0)).unwrap();
    let (phase, action) = begin(&planned);
    assert_eq!(action, Action::Commit { expected: TaskStatus::InProgress, status: TaskStatus::Submitted });
    let (phase, action) = step(&planned, phase, Event::CommitConflict);
    assert_eq!(phase, Phase::Finished);
    assert_eq!(action, Action::Finish(Err(AppError::Conflict("Task was changed by another request".into()))));
}

#[test]
fn storage_failure_is_reported_as_such() {
    let planned = plan(&LifecycleRequest::Approve, Some(&task(TaskStatus::Submitted)), &user(REQUESTER, 0)).unwrap();
    let (phase, _) = begin(&planned);
    let (_, action) = step(&planned, phase, Event::StorageFailed("connection reset".into()));
    assert_eq!(action, Action::Finish(Err(AppError::Database("connection reset".into()))));
    let (phase, _) = begin(&planned);
    let (phase, _) = step(&planned, phase, Event::PaymentSucceeded);
    let (_, action) = step(&planned, phase, Event::StorageFailed("disk full".into()));
    assert_eq!(action, Action::Finish(Err(AppError::Database("disk full".into()))));
}

#[test]
fn refusals_on_the_way_are_passed_on() {
    let planned = plan(&LifecycleRequest::Approve, Some(&task(TaskStatus::Submitted)), &user(REQUESTER, 0)).unwrap();
    let (phase, _) = begin(&planned);
    let (phase, action) = step(&planned, phase, Event::Refused(AppError::NotFound("Payment not found".into())));
    assert_eq!(phase, Phase::Finished);
    assert_eq!(action, Action::Finish(Err(AppError::NotFound("Payment not found".into()))));
}

#[test]
fn events_out_of_turn_finish_with_an_internal_failure() {
    let planned = plan(&LifecycleRequest::Start, Some(&task(TaskStatus::Assigned)), &user(DOER, 0)).unwrap();
    let (phase, _) = begin(&planned);
    assert_eq!(phase, Phase::AwaitingPayment);
    let (phase, action) = step(&planned, phase, Event::Committed);
    assert_eq!(phase, Phase::Finished);
    assert_eq!(action, Action::Finish(Err(AppError::Internal("Unexpected event".into()))));
    let (_, action) = step(&planned, Phase::AwaitingCommit, Event::PaymentSucceeded);
    assert_eq!(action, Action::Finish(Err(AppError::Internal("Unexpected event".into()))));
}

#[test]
fn payment_step_of_each_operation() {
    let requester = user(REQUESTER, 0);
    let doer = user(DOER, 0);
    let cases: Vec<(LifecycleRequest, TaskStatus, AuthUser, PaymentStep, TaskStatus)> = vec![
        (LifecycleRequest::Start, TaskStatus::Assigned, doer, PaymentStep::Capture, TaskStatus::InProgress),
        (LifecycleRequest::Submit, TaskStatus::InProgress, doer, PaymentStep::NotNeeded, TaskStatus::Submitted),
        (LifecycleRequest::Approve, TaskStatus::Submitted, requester, PaymentStep::Release, TaskStatus::Completed),
        (LifecycleRequest::Dispute, TaskStatus::Submitted, requester, PaymentStep::NotNeeded, TaskStatus::Disputed),
        (
            LifecycleRequest::Resolve { resolution: Some(Resolution::Release) },
            TaskStatus::Disputed,
            admin(),
            PaymentStep::Release,
            TaskStatus::Resolved,
        ),
        (
            LifecycleRequest::Resolve { resolution: Some(Resolution::Refund) },
            TaskStatus::Disputed,
            admin(),
            PaymentStep::Refund,
            TaskStatus::Resolved,
        ),
        (
            LifecycleRequest::Cancel { has_payment: true },
            TaskStatus::Assigned,
            requester,
            PaymentStep::Refund,
            TaskStatus::Cancelled,
        ),
        (
            LifecycleRequest::Cancel { has_payment: false },
            TaskStatus::Published,
            requester,
            PaymentStep::NotNeeded,
            TaskStatus::Cancelled,
        ),
        (
            LifecycleRequest::ModerationApprove,
            TaskStatus::PendingReview,
            admin(),
            PaymentStep::NotNeeded,
            TaskStatus::Published,
        ),
    ];
    for (request, status, actor, payment, to) in cases {
        let planned = plan(&request, Some(&task(status)), &actor).unwrap();
        assert_eq!(planned.operation, request.kind());
        assert_eq!(planned.from, status);
        assert_eq!(planned.to, to);
        assert_eq!(planned.payment, payment);
        assert_eq!(planned.outcome, PlanOutcome::Done);
        assert_eq!(planned.assignee, None);
    }
}

#[test]
fn terminal_tasks_admit_no_operation() {
    let requests = vec![
        LifecycleRequest::Publish { verdict: ModerationResult::Clean },
        assign(Some(DOER), true),
        LifecycleRequest::Start,
        LifecycleRequest::Submit,
        LifecycleRequest::Approve,
        LifecycleRequest::Dispute,
        LifecycleRequest::Resolve { resolution: Some(Resolution::Refund) },
        LifecycleRequest::Cancel { has_payment: true },
        LifecycleRequest::ModerationApprove,
        LifecycleRequest::ModerationReject { reason: "no".into() },
    ];
    let actors = [user(REQUESTER, 3), user(DOER, 3), admin()];
    for status in [
        TaskStatus::Completed,
        TaskStatus::Resolved,
        TaskStatus::Cancelled,
        TaskStatus::Expired,
        TaskStatus::Rejected,
    ] {
        for request in &requests {
            for actor in &actors {
                assert!(plan(request, Some(&task(status)), actor).is_err());
            }
        }
    }
}

#[test]
fn only_the_right_party_may_ask() {
    assert_eq!(
        plan(&LifecycleRequest::Start, Some(&task(TaskStatus::Assigned)), &user(REQUESTER, 3)),
        Err(AppError::Forbidden("Not the assigned doer".into()))
    );
    let mut unassigned = task(TaskStatus::Assigned);
    unassigned.assigned_doer_id = None;
    assert_eq!(
        plan(&LifecycleRequest::Start, Some(&unassigned), &user(DOER, 3)),
        Err(AppError::Forbidden("Not the assigned doer".into()))
    );
    assert_eq!(
        plan(&LifecycleRequest::ModerationApprove, Some(&task(TaskStatus::PendingReview)), &user(REQUESTER, 3)),
        Err(AppError::Forbidden("Admin access required".into()))
    );
    assert!(Role::Admin.is_held_by(&task(TaskStatus::Draft), &admin()));
    assert!(!Role::Requester.is_held_by(&task(TaskStatus::Draft), &admin()));
}

#[test]
fn manual_moderation_and_resolution_requests() {
    let reject = RejectRequest { reason: "misleading".into() };
    assert_eq!(reject.to_request(), LifecycleRequest::ModerationReject { reason: "misleading".into() });
    let planned = plan(&reject.to_request(), Some(&task(TaskStatus::PendingReview)), &admin()).unwrap();
    assert_eq!(planned.to, TaskStatus::Rejected);
    assert_eq!(planned.reason, Some("misleading".to_string()));
    assert_eq!(planned.outcome, PlanOutcome::Done);

    let release = ResolveDisputeRequest { resolution: "release".into(), notes: None };
    assert_eq!(release.to_request(), LifecycleRequest::Resolve { resolution: Some(Resolution::Release) });
    assert_eq!(release.confirmation(), "Dispute resolved: release");
    let refund = ResolveDisputeRequest { resolution: "refund".into(), notes: Some("late".into()) };
    assert_eq!(refund.to_request(), LifecycleRequest::Resolve { resolution: Some(Resolution::Refund) });
    let unclear = ResolveDisputeRequest { resolution: "Refund".into(), notes: None };
    assert_eq!(unclear.to_request(), LifecycleRequest::Resolve { resolution: None });
    // The status is looked at before the resolution.
    assert_eq!(
        plan(&unclear.to_request(), Some(&task(TaskStatus::Submitted)), &admin()),
        Err(AppError::InvalidTransition("Cannot transition from submitted to resolved".into()))
    );
    assert_eq!(
        plan(&unclear.to_request(), Some(&task(TaskStatus::Disputed)), &admin()),
        Err(AppError::BadRequest("Resolution must be 'release' or 'refund'".into()))
    );
    assert_eq!(Resolution::Release.as_str(), "release");
    assert_eq!(Resolution::Refund.as_str(), "refund");
    assert_eq!(Resolution::from_str("refund"), Some(Resolution::Refund));
    assert_eq!(Resolution::from_str(""), None);
}

#[test]
fn follow_ups_of_each_operation() {
    let facts = task(TaskStatus::Submitted);
    let approve = plan(&LifecycleRequest::Approve, Some(&facts), &user(REQUESTER, 0)).unwrap();
    assert_eq!(
        approve.follow_ups(&facts),
        FollowUps {
            moderation_action: None,
            audit_action: Some("task.completed"),
            settle_applications: false,
            refresh_reputation_of: Some(DOER),
            check_suspension_of: None,
        }
    );
    let disputed = task(TaskStatus::Disputed);
    let refund = plan(&LifecycleRequest::Resolve { resolution: Some(Resolution::Refund) }, Some(&disputed), &admin()).unwrap();
    assert_eq!(
        refund.follow_ups(&disputed),
        FollowUps {
            moderation_action: None,
            audit_action: Some("admin.dispute.resolved"),
            settle_applications: false,
            refresh_reputation_of: Some(DOER),
            check_suspension_of: Some(DOER),
        }
    );
    let release = plan(&LifecycleRequest::Resolve { resolution: Some(Resolution::Release) }, Some(&disputed), &admin()).unwrap();
    assert_eq!(release.follow_ups(&disputed).refresh_reputation_of, None);
    assert_eq!(release.follow_ups(&disputed).check_suspension_of, None);
    let published = task(TaskStatus::Published);
    let assigned = plan(&assign(Some(DOER), true), Some(&published), &user(REQUESTER, 1)).unwrap();
    assert!(assigned.follow_ups(&published).settle_applications);
    assert_eq!(assigned.follow_ups(&published).audit_action, Some("task.assigned"));
    let draft = task(TaskStatus::Draft);
    for (verdict, moderation, audit) in [
        (ModerationResult::Clean, "approved", Some("task.published")),
        (ModerationResult::Rejected("r".into()), "rejected", None),
        (ModerationResult::Flagged("f".into()), "flagged", None),
    ] {
        let planned = plan(&LifecycleRequest::Publish { verdict }, Some(&draft), &user(REQUESTER, 1)).unwrap();
        let todo = planned.follow_ups(&draft);
        assert_eq!(todo.moderation_action, Some(moderation));
        assert_eq!(todo.audit_action, audit);
    }
    let pending = task(TaskStatus::PendingReview);
    let approved = plan(&LifecycleRequest::ModerationApprove, Some(&pending), &admin()).unwrap();
    assert_eq!(approved.follow_ups(&pending).moderation_action, Some("approved"));
    assert_eq!(approved.follow_ups(&pending).audit_action, Some("admin.moderation.approved"));
    let others = [
        (LifecycleRequest::Start, TaskStatus::Assigned, user(DOER, 0), "task.started"),
        (LifecycleRequest::Submit, TaskStatus::InProgress, user(DOER, 0), "task.submitted"),
        (LifecycleRequest::Dispute, TaskStatus::Submitted, user(REQUESTER, 0), "task.disputed"),
        (LifecycleRequest::Cancel { has_payment: false }, TaskStatus::Published, user(REQUESTER, 0), "task.cancelled"),
    ];
    for (request, status, actor, audit) in others {
        let facts = task(status);
        let planned = plan(&request, Some(&facts), &actor).unwrap();
        assert_eq!(planned.follow_ups(&facts).audit_action, Some(audit));
        assert_eq!(planned.follow_ups(&facts).refresh_reputation_of, None);
    }
}

#[test]
fn three_losses_suspend() {
    assert!(!should_auto_suspend(0));
    assert!(!should_auto_suspend(2));
    assert!(should_auto_suspend(3));
    assert!(should_auto_suspend(40));
    assert!(!should_auto_suspend(-1));
}

#[test]
fn payment_records_follow_the_steps() {
    assert_eq!(status_after(&PaymentStep::NotNeeded), None);
    assert_eq!(status_after(&PaymentStep::AuthorizeEscrow(FeeBreakdown::calculate(500))), Some(PaymentStatus::Pending));
    assert_eq!(status_after(&PaymentStep::Capture), Some(PaymentStatus::Escrowed));
    assert_eq!(status_after(&PaymentStep::Release), Some(PaymentStatus::Released));
    assert_eq!(status_after(&PaymentStep::Refund), Some(PaymentStatus::Refunded));
}

#[test]
fn refunds_cancel_what_was_never_captured() {
    let pending = PaymentFacts { doer_id: DOER, doer_payout_cents: 9_900, pending: true };
    let captured = PaymentFacts { doer_id: DOER, doer_payout_cents: 9_900, pending: false };
    assert_eq!(refund_method(&pending), RefundMethod::CancelAuthorization);
    assert_eq!(refund_method(&captured), RefundMethod::Refund);
    assert!(is_pending("pending"));
    assert!(!is_pending("escrowed"));
    assert!(!is_pending("Pending"));
    assert!(!is_pending(""));
}

#[test]
fn release_pays_the_payout_to_the_doers_account() {
    let payment = PaymentFacts { doer_id: DOER, doer_payout_cents: 9_900, pending: false };
    assert_eq!(
        release_order(Some(payment), Some("acct_1".into())),
        Ok(TransferOrder { amount_cents: 9_900, destination: "acct_1".into() })
    );
    assert_eq!(
        release_order(Some(payment), None),
        Err(AppError::PaymentError("Doer has no Stripe Connect account".into()))
    );
    assert_eq!(release_order(None, Some("acct_1".into())), Err(AppError::NotFound("Payment not found".into())));
    assert_eq!(release_order(None, None), Err(AppError::NotFound("Payment not found".into())));
    assert_eq!(require_payment(Some(payment)), Ok(payment));
    assert_eq!(require_payment(None), Err(AppError::NotFound("Payment not found".into())));
}

#[test]
fn payment_failures_name_the_call() {
    let refund = RefundMethod::Refund;
    assert_eq!(failure_reason(&PaymentStep::Capture, refund, "timeout"), "Stripe capture failed: timeout");
    assert_eq!(failure_reason(&PaymentStep::Release, refund, "timeout"), "Stripe transfer failed: timeout");
    assert_eq!(failure_reason(&PaymentStep::Refund, refund, "x"), "Stripe refund failed: x");
    assert_eq!(
        failure_reason(&PaymentStep::Refund, RefundMethod::CancelAuthorization, "x"),
        "Stripe cancel failed: x"
    );
    assert_eq!(
        failure_reason(&PaymentStep::AuthorizeEscrow(FeeBreakdown::calculate(500)), refund, ""),
        "Stripe PaymentIntent creation failed: "
    );
    assert_eq!(failure_reason(&PaymentStep::NotNeeded, refund, "x"), "Payment failed: x");
}

#[test]
fn webhook_events_by_type() {
    assert_eq!(webhook_effect("payment_intent.succeeded"), WebhookEffect::MarkEscrowed);
    assert_eq!(webhook_effect("payment_intent.payment_failed"), WebhookEffect::MarkFailed);
    assert_eq!(webhook_effect("transfer.created"), WebhookEffect::MarkReleased);
    assert_eq!(webhook_effect("transfer.paid"), WebhookEffect::MarkReleased);
    assert_eq!(webhook_effect("account.updated"), WebhookEffect::LogAccountUpdate);
    assert_eq!(webhook_effect("unknown"), WebhookEffect::Ignore);
    assert_eq!(webhook_effect(""), WebhookEffect::Ignore);
    assert_eq!(webhook_effect("Transfer.Paid"), WebhookEffect::Ignore);
}

#[test]
fn audit_log_pages() {
    assert_eq!(paginate_audit_log(None, None), Some(Page { page: 1, per_page: 50, offset: 0 }));
    assert_eq!(paginate_audit_log(Some(3), Some(500)), Some(Page { page: 3, per_page: 200, offset: 400 }));
}

#[test]
fn of_two_racing_operations_one_wins() {
    let facts = task(TaskStatus::Published);
    let cancel = plan(&LifecycleRequest::Cancel { has_payment: false }, Some(&facts), &user(REQUESTER, 1)).unwrap();
    let assigned = plan(&assign(Some(DOER), true), Some(&facts), &user(REQUESTER, 1)).unwrap();
    let (stored, event) = settle_commit(facts.status, cancel.from, cancel.to);
    assert_eq!((stored, event), (TaskStatus::Cancelled, Event::Committed));
    let (stored, event) = settle_commit(stored, assigned.from, assigned.to);
    assert_eq!((stored, event.clone()), (TaskStatus::Cancelled, Event::CommitConflict));
    let (phase, _) = begin(&assigned);
    let (phase, _) = step(&assigned, phase, Event::PaymentSucceeded);
    let (_, action) = step(&assigned, phase, event);
    assert_eq!(action, Action::Finish(Err(AppError::Conflict("Task was changed by another request".into()))));
}

#[test]
fn outcomes_are_reported_as_events() {
    assert_eq!(payment_event(Ok(())), Event::PaymentSucceeded);
    assert_eq!(payment_event(Err(AppError::PaymentError("declined".into()))), Event::PaymentFailed("declined".into()));
    assert_eq!(payment_event(Err(AppError::Database("down".into()))), Event::StorageFailed("down".into()));
    assert_eq!(
        payment_event(Err(AppError::NotFound("Payment not found".into()))),
        Event::Refused(AppError::NotFound("Payment not found".into()))
    );
    assert_eq!(commit_event(Ok(true)), Event::Committed);
    assert_eq!(commit_event(Ok(false)), Event::CommitConflict);
    assert_eq!(commit_event(Err(AppError::Database("down".into()))), Event::StorageFailed("down".into()));
    assert_eq!(
        commit_event(Err(AppError::Internal("odd".into()))),
        Event::Refused(AppError::Internal("odd".into()))
    );
}

#[test]
fn reasons_that_are_stored_and_logged() {
    let draft = task(TaskStatus::Draft);
    let requester = user(REQUESTER, 1);
    let clean = plan(&LifecycleRequest::Publish { verdict: ModerationResult::Clean }, Some(&draft), &requester).unwrap();
    assert_eq!(clean.log_reason(), Some("Automated: content clean".to_string()));
    assert_eq!(clean.stored_reasons(), (None, None));
    let rejected = plan(
        &LifecycleRequest::Publish { verdict: ModerationResult::Rejected("r".into()) },
        Some(&draft),
        &requester,
    )
    .unwrap();
    assert_eq!(rejected.log_reason(), Some("r".to_string()));
    assert_eq!(rejected.stored_reasons(), (Some("r".to_string()), None));
    let flagged = plan(
        &LifecycleRequest::Publish { verdict: ModerationResult::Flagged("f".into()) },
        Some(&draft),
        &requester,
    )
    .unwrap();
    assert_eq!(flagged.log_reason(), Some("f".to_string()));
    assert_eq!(flagged.stored_reasons(), (None, Some("f".to_string())));
    let pending = task(TaskStatus::PendingReview);
    let approved = plan(&LifecycleRequest::ModerationApprove, Some(&pending), &admin()).unwrap();
    assert_eq!(approved.log_reason(), Some("Manual admin approval".to_string()));
    let refused = plan(&LifecycleRequest::ModerationReject { reason: "no".into() }, Some(&pending), &admin()).unwrap();
    assert_eq!(refused.log_reason(), Some("no".to_string()));
    assert_eq!(refused.stored_reasons(), (Some("no".to_string()), None));
    let started = plan(&LifecycleRequest::Start, Some(&task(TaskStatus::Assigned)), &user(DOER, 0)).unwrap();
    assert_eq!(started.log_reason(), None);
    assert_eq!(started.stored_reasons(), (None, None));
}
