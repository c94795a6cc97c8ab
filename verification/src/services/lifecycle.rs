//! The task lifecycle orchestrator.
//!
//! Each operation on a task (publish, assign, start, submit, approve,
//! dispute, resolve, cancel, and the two manual moderation decisions) is
//! planned here from what storage knows of the task and from who is asking.
//! A plan names the status to persist, the status that must still be current
//! when it is persisted, and the payment step that has to succeed first.
//!
//! Carrying a plan out is a small state machine: the caller performs the
//! action it is handed and reports what happened. A status is never handed
//! out for persisting before the payment step of its plan has succeeded.

use vstd::prelude::*;
use vstd::string::StringExecFns;
use crate::auth::middleware::AuthUser;
use crate::errors::{failure, AppError, ErrorKind, Failure};
use crate::models::payment::FeeBreakdown;
use crate::models::task::{InvalidTransition, TaskStatus, MIN_TASK_PRICE_CENTS};
use crate::models::user::{max_task_value, TrustLevelRequirements};
use crate::services::moderation::{ModerationResult, Verdict};
use crate::text::str_eq;

verus! {

/// What storage knows of a task, as far as decisions read it.
#[derive(Debug, Clone, Copy, PartialEq, Eq, Structural)]
pub struct TaskFacts {
    pub status: TaskStatus,
    pub requester_id: u128,
    pub assigned_doer_id: Option<u128>,
    pub price_cents: i64,
}

/// The operations on a task.
#[derive(Debug, Clone, Copy, PartialEq, Eq, Structural)]
pub enum Operation {
    Publish,
    Assign,
    Start,
    Submit,
    Approve,
    Dispute,
    Resolve,
    Cancel,
    ModerationApprove,
    ModerationReject,
}

/// How a dispute is settled: pay the doer, or refund the requester.
#[derive(Debug, Clone, Copy, PartialEq, Eq, Structural)]
pub enum Resolution {
    Release,
    Refund,
}

/// Who may ask for an operation.
#[derive(Debug, Clone, Copy, PartialEq, Eq, Structural)]
pub enum Role {
    Requester,
    AssignedDoer,
    Admin,
}

/// The payment step that has to succeed before a status is persisted.
#[derive(Debug, Clone, Copy, PartialEq, Eq, Structural)]
pub enum PaymentStep {
    NotNeeded,
    /// Authorize, without capturing, the total of the breakdown.
    AuthorizeEscrow(FeeBreakdown),
    Capture,
    /// Transfer the payout to the doer.
    Release,
    /// Give the requester their money back. The platform waives its fee.
    Refund,
}

/// How an operation ends once its status is persisted.
#[derive(Debug, Clone, Copy, PartialEq, Eq, Structural)]
pub enum PlanOutcome {
    Done,
    ContentRejected,
    ContentFlagged,
}

/// An operation together with what it needs beyond the task itself.
#[derive(Debug, Clone, PartialEq, Eq)]
pub enum LifecycleRequest {
    /// `verdict` is the classifier's judgement of the task's title and
    /// description.
    Publish { verdict: ModerationResult },
    /// `applicant` is the doer of the chosen pending application, if storage
    /// has it; `has_payment_method` says whether the requester has one on
    /// file.
    Assign { applicant: Option<u128>, has_payment_method: bool },
    Start,
    Submit,
    Approve,
    Dispute,
    /// `resolution` is `None` where the request named neither way.
    Resolve { resolution: Option<Resolution> },
    /// `has_payment` says whether a payment record exists for the task.
    Cancel { has_payment: bool },
    ModerationApprove,
    ModerationReject { reason: String },
}

/// A planned operation.
#[derive(Debug, Clone, PartialEq, Eq)]
pub struct LifecyclePlan {
    pub operation: Operation,
    /// The status that must still be current when `to` is persisted.
    pub from: TaskStatus,
    /// The status to persist.
    pub to: TaskStatus,
    /// What has to succeed before `to` is persisted.
    pub payment: PaymentStep,
    /// The doer that the task is assigned to by this operation.
    pub assignee: Option<u128>,
    pub outcome: PlanOutcome,
    /// The reason to store with the status and to surface to the caller.
    pub reason: Option<String>,
}

impl Operation {
    /// Who may ask for the operation.
    pub open spec fn role(self) -> Role {
        match self {
            Operation::Publish
            | Operation::Assign
            | Operation::Approve
            | Operation::Dispute
            | Operation::Cancel => Role::Requester,
            Operation::Start | Operation::Submit => Role::AssignedDoer,
            Operation::Resolve | Operation::ModerationApprove | Operation::ModerationReject => {
                Role::Admin
            },
        }
    }

    /// The status that the operation asks the state machine for.
    pub open spec fn target(self) -> TaskStatus {
        match self {
            Operation::Publish => TaskStatus::PendingReview,
            Operation::Assign => TaskStatus::Assigned,
            Operation::Start => TaskStatus::InProgress,
            Operation::Submit => TaskStatus::Submitted,
            Operation::Approve => TaskStatus::Completed,
            Operation::Dispute => TaskStatus::Disputed,
            Operation::Resolve => TaskStatus::Resolved,
            Operation::Cancel => TaskStatus::Cancelled,
            Operation::ModerationApprove => TaskStatus::Published,
            Operation::ModerationReject => TaskStatus::Rejected,
        }
    }

    pub fn required_role(&self) -> (role: Role)
        ensures
            role == self.role(),
    {
        match self {
            Operation::Publish
            | Operation::Assign
            | Operation::Approve
            | Operation::Dispute
            | Operation::Cancel => Role::Requester,
            Operation::Start | Operation::Submit => Role::AssignedDoer,
            Operation::Resolve | Operation::ModerationApprove | Operation::ModerationReject => {
                Role::Admin
            },
        }
    }

    pub fn target_status(&self) -> (status: TaskStatus)
        ensures
            status == self.target(),
    {
        match self {
            Operation::Publish => TaskStatus::PendingReview,
            Operation::Assign => TaskStatus::Assigned,
            Operation::Start => TaskStatus::InProgress,
            Operation::Submit => TaskStatus::Submitted,
            Operation::Approve => TaskStatus::Completed,
            Operation::Dispute => TaskStatus::Disputed,
            Operation::Resolve => TaskStatus::Resolved,
            Operation::Cancel => TaskStatus::Cancelled,
            Operation::ModerationApprove => TaskStatus::Published,
            Operation::ModerationReject => TaskStatus::Rejected,
        }
    }
}

impl Role {
    /// Whether the actor holds the role on the task.
    pub open spec fn held_by(self, task: TaskFacts, actor: AuthUser) -> bool {
        match self {
            Role::Requester => task.requester_id == actor.user_id,
            Role::AssignedDoer => task.assigned_doer_id == Some(actor.user_id),
            Role::Admin => actor.is_admin,
        }
    }

    /// What an actor without the role is told.
    pub open spec fn refusal(self) -> Seq<char> {
        match self {
            Role::Requester => "Not your task"@,
            Role::AssignedDoer => "Not the assigned doer"@,
            Role::Admin => "Admin access required"@,
        }
    }

    pub fn is_held_by(&self, task: &TaskFacts, actor: &AuthUser) -> (held: bool)
        ensures
            held == self.held_by(*task, *actor),
    {
        match self {
            Role::Requester => task.requester_id == actor.user_id,
            Role::AssignedDoer => match task.assigned_doer_id {
                Some(doer) => doer == actor.user_id,
                None => false,
            },
            Role::Admin => actor.is_admin,
        }
    }

    pub fn refusal_text(&self) -> (s: &'static str)
        ensures
            s@ == self.refusal(),
    {
        match self {
            Role::Requester => "Not your task",
            Role::AssignedDoer => "Not the assigned doer",
            Role::Admin => "Admin access required",
        }
    }
}

impl Resolution {
    pub open spec fn name(self) -> Seq<char> {
        match self {
            Resolution::Release => "release"@,
            Resolution::Refund => "refund"@,
        }
    }

    pub open spec fn parse(s: Seq<char>) -> Option<Resolution> {
        if s == "release"@ {
            Some(Resolution::Release)
        } else if s == "refund"@ {
            Some(Resolution::Refund)
        } else {
            None
        }
    }

    pub fn as_str(&self) -> (s: &'static str)
        ensures
            s@ == self.name(),
    {
        match self {
            Resolution::Release => "release",
            Resolution::Refund => "refund",
        }
    }

    /// Reads `"release"` or `"refund"`; anything else is `None`.
    pub fn from_str(s: &str) -> (r: Option<Resolution>)
        ensures
            r == Resolution::parse(s@),
    {
        if str_eq(s, "release") {
            Some(Resolution::Release)
        } else if str_eq(s, "refund") {
            Some(Resolution::Refund)
        } else {
            None
        }
    }
}

impl LifecycleRequest {
    pub open spec fn operation(self) -> Operation {
        match self {
            LifecycleRequest::Publish { .. } => Operation::Publish,
            LifecycleRequest::Assign { .. } => Operation::Assign,
            LifecycleRequest::Start => Operation::Start,
            LifecycleRequest::Submit => Operation::Submit,
            LifecycleRequest::Approve => Operation::Approve,
            LifecycleRequest::Dispute => Operation::Dispute,
            LifecycleRequest::Resolve { .. } => Operation::Resolve,
            LifecycleRequest::Cancel { .. } => Operation::Cancel,
            LifecycleRequest::ModerationApprove => Operation::ModerationApprove,
            LifecycleRequest::ModerationReject { .. } => Operation::ModerationReject,
        }
    }

    /// The status that the operation leaves the task in. Publishing passes
    /// through `PendingReview` and, on a clean or rejected verdict, moves on
    /// at once.
    pub open spec fn final_status(self) -> TaskStatus {
        match self {
            LifecycleRequest::Publish { verdict } => match verdict@ {
                Verdict::Clean => TaskStatus::Published,
                Verdict::Rejected(_) => TaskStatus::Rejected,
                Verdict::Flagged(_) => TaskStatus::PendingReview,
            },
            _ => self.operation().target(),
        }
    }

    /// How the operation ends once its status is persisted.
    pub open spec fn outcome(self) -> PlanOutcome {
        match self {
            LifecycleRequest::Publish { verdict } => match verdict@ {
                Verdict::Clean => PlanOutcome::Done,
                Verdict::Rejected(_) => PlanOutcome::ContentRejected,
                Verdict::Flagged(_) => PlanOutcome::ContentFlagged,
            },
            _ => PlanOutcome::Done,
        }
    }

    /// The reason that goes with the status.
    pub open spec fn reason(self) -> Option<Seq<char>> {
        match self {
            LifecycleRequest::Publish { verdict } => match verdict@ {
                Verdict::Clean => None,
                Verdict::Rejected(reason) => Some(reason),
                Verdict::Flagged(reason) => Some(reason),
            },
            LifecycleRequest::ModerationReject { reason } => Some(reason@),
            _ => None,
        }
    }

    /// The doer that an assignment gives the task to.
    pub open spec fn assignee(self) -> Option<u128> {
        match self {
            LifecycleRequest::Assign { applicant, .. } => applicant,
            _ => None,
        }
    }

    /// The payment step that has to succeed first.
    pub open spec fn payment(self, task: TaskFacts) -> PaymentStep {
        match self {
            LifecycleRequest::Assign { .. } => PaymentStep::AuthorizeEscrow(
                FeeBreakdown::of(task.price_cents as int),
            ),
            LifecycleRequest::Start => PaymentStep::Capture,
            LifecycleRequest::Approve => PaymentStep::Release,
            LifecycleRequest::Resolve { resolution } => match resolution {
                Some(Resolution::Release) => PaymentStep::Release,
                Some(Resolution::Refund) => PaymentStep::Refund,
                None => PaymentStep::NotNeeded,
            },
            LifecycleRequest::Cancel { has_payment } => if has_payment {
                PaymentStep::Refund
            } else {
                PaymentStep::NotNeeded
            },
            _ => PaymentStep::NotNeeded,
        }
    }

    /// Why a request is refused although the state machine allows its edge.
    /// An assignment: the price is outside what the requester's trust level
    /// or the marketplace permits, the application is gone, or there is
    /// nothing to charge. A resolution: it names neither way to settle.
    pub open spec fn unmet_condition(self, task: TaskFacts, actor: AuthUser) -> Option<Failure> {
        match self {
            LifecycleRequest::Assign { applicant, has_payment_method } => {
                if task.price_cents > max_task_value(actor.trust_level as int) {
                    Some(
                        Failure {
                            kind: ErrorKind::TrustLevelInsufficient,
                            reason: "Task value exceeds the maximum for your trust level"@,
                        },
                    )
                } else if task.price_cents < MIN_TASK_PRICE_CENTS {
                    Some(
                        Failure {
                            kind: ErrorKind::BadRequest,
                            reason: "Task price is below the minimum"@,
                        },
                    )
                } else if applicant is None {
                    Some(Failure { kind: ErrorKind::NotFound, reason: "Application not found"@ })
                } else if !has_payment_method {
                    Some(
                        Failure {
                            kind: ErrorKind::PaymentError,
                            reason: "Requester has no payment method on file"@,
                        },
                    )
                } else {
                    None
                }
            },
            LifecycleRequest::Resolve { resolution: None } => Some(
                Failure {
                    kind: ErrorKind::BadRequest,
                    reason: "Resolution must be 'release' or 'refund'"@,
                },
            ),
            _ => None,
        }
    }

    /// Why the operation is refused, if it is. The checks run in this order:
    /// the task exists, the actor holds the role, the state machine allows
    /// the edge, and then the conditions of [`Self::unmet_condition`].
    pub open spec fn refusal(self, task: Option<TaskFacts>, actor: AuthUser) -> Option<Failure> {
        match task {
            None => Some(Failure { kind: ErrorKind::NotFound, reason: "Task not found"@ }),
            Some(task) => {
                let operation = self.operation();
                if !operation.role().held_by(task, actor) {
                    Some(Failure { kind: ErrorKind::Forbidden, reason: operation.role().refusal() })
                } else if !task.status.allows(operation.target()) {
                    Some(
                        Failure {
                            kind: ErrorKind::InvalidTransition,
                            reason: (InvalidTransition {
                                from: task.status,
                                to: operation.target(),
                            }).message_text(),
                        },
                    )
                } else {
                    self.unmet_condition(task, actor)
                }
            },
        }
    }

    pub fn kind(&self) -> (operation: Operation)
        ensures
            operation == self.operation(),
    {
        match self {
            LifecycleRequest::Publish { .. } => Operation::Publish,
            LifecycleRequest::Assign { .. } => Operation::Assign,
            LifecycleRequest::Start => Operation::Start,
            LifecycleRequest::Submit => Operation::Submit,
            LifecycleRequest::Approve => Operation::Approve,
            LifecycleRequest::Dispute => Operation::Dispute,
            LifecycleRequest::Resolve { .. } => Operation::Resolve,
            LifecycleRequest::Cancel { .. } => Operation::Cancel,
            LifecycleRequest::ModerationApprove => Operation::ModerationApprove,
            LifecycleRequest::ModerationReject { .. } => Operation::ModerationReject,
        }
    }
}

impl LifecyclePlan {
    /// The plan is the one that `request` calls for on `task`.
    pub open spec fn is_plan_for(self, request: LifecycleRequest, task: TaskFacts) -> bool {
        &&& self.operation == request.operation()
        &&& self.from == task.status
        &&& self.to == request.final_status()
        &&& self.outcome == request.outcome()
        &&& match (self.reason, request.reason()) {
            (Some(stored), Some(given)) => stored@ == given,
            (None, None) => true,
            _ => false,
        }
        &&& self.payment == request.payment(task)
        &&& self.assignee == request.assignee()
    }

    /// The status is reached from `from` over edges of the lifecycle graph:
    /// over one edge, or, when publishing, over the edge to `PendingReview`
    /// and one more.
    pub open spec fn follows_the_graph(self) -> bool {
        ||| self.from.allows(self.to)
        ||| {
            &&& self.operation is Publish
            &&& self.from.allows(TaskStatus::PendingReview)
            &&& TaskStatus::PendingReview.allows(self.to)
        }
    }

    /// What the caller is answered once the status is persisted.
    pub open spec fn answer(self) -> Result<TaskStatus, Failure> {
        match self.outcome {
            PlanOutcome::Done => Ok(self.to),
            PlanOutcome::ContentRejected => Err(
                Failure { kind: ErrorKind::ContentRejected, reason: self.reason_text() },
            ),
            PlanOutcome::ContentFlagged => Err(
                Failure { kind: ErrorKind::ContentFlagged, reason: self.reason_text() },
            ),
        }
    }

    /// The stored reason, or the empty text where there is none.
    pub open spec fn reason_text(self) -> Seq<char> {
        match self.reason {
            Some(reason) => reason@,
            None => Seq::empty(),
        }
    }
}

/// Refuses a request that the state machine allows but that lacks something
/// else: see [`LifecycleRequest::unmet_condition`].
fn check_conditions(request: &LifecycleRequest, task: &TaskFacts, actor: &AuthUser) -> (r: Result<
    (),
    AppError,
>)
    ensures
        match r {
            Ok(_) => request.unmet_condition(*task, *actor) is None,
            Err(e) => request.unmet_condition(*task, *actor) == Some(e@),
        },
{
    match request {
        LifecycleRequest::Assign { applicant, has_payment_method } => {
            if task.price_cents > TrustLevelRequirements::max_task_value_cents(actor.trust_level) {
                return Err(
                    failure(
                        ErrorKind::TrustLevelInsufficient,
                        "Task value exceeds the maximum for your trust level",
                    ),
                );
            }
            if task.price_cents < MIN_TASK_PRICE_CENTS {
                return Err(failure(ErrorKind::BadRequest, "Task price is below the minimum"));
            }
            if applicant.is_none() {
                return Err(failure(ErrorKind::NotFound, "Application not found"));
            }
            if !*has_payment_method {
                return Err(
                    failure(ErrorKind::PaymentError, "Requester has no payment method on file"),
                );
            }
            Ok(())
        },
        LifecycleRequest::Resolve { resolution } => match resolution {
            Some(_) => Ok(()),
            None => Err(
                failure(ErrorKind::BadRequest, "Resolution must be 'release' or 'refund'"),
            ),
        },
        _ => Ok(()),
    }
}

/// The payment step of a request that was not refused.
fn payment_step(request: &LifecycleRequest, task: &TaskFacts, actor: &AuthUser) -> (step:
    PaymentStep)
    requires
        request.unmet_condition(*task, *actor) is None,
    ensures
        step == request.payment(*task),
{
    match request {
        LifecycleRequest::Assign { .. } => {
            PaymentStep::AuthorizeEscrow(FeeBreakdown::calculate(task.price_cents))
        },
        LifecycleRequest::Start => PaymentStep::Capture,
        LifecycleRequest::Approve => PaymentStep::Release,
        LifecycleRequest::Resolve { resolution } => match resolution {
            Some(Resolution::Release) => PaymentStep::Release,
            Some(Resolution::Refund) => PaymentStep::Refund,
            None => PaymentStep::NotNeeded,
        },
        LifecycleRequest::Cancel { has_payment } => if *has_payment {
            PaymentStep::Refund
        } else {
            PaymentStep::NotNeeded
        },
        _ => PaymentStep::NotNeeded,
    }
}

/// Where the request leaves the task, how it ends, and the reason that goes
/// with it.
fn settle(request: &LifecycleRequest) -> (r: (TaskStatus, PlanOutcome, Option<String>))
    ensures
        r.0 == request.final_status(),
        r.1 == request.outcome(),
        match (r.2, request.reason()) {
            (Some(stored), Some(given)) => stored@ == given,
            (None, None) => true,
            _ => false,
        },
{
    match request {
        LifecycleRequest::Publish { verdict } => match verdict {
            ModerationResult::Clean => (TaskStatus::Published, PlanOutcome::Done, None),
            ModerationResult::Rejected(reason) => (
                TaskStatus::Rejected,
                PlanOutcome::ContentRejected,
                Some(reason.clone()),
            ),
            ModerationResult::Flagged(reason) => (
                TaskStatus::PendingReview,
                PlanOutcome::ContentFlagged,
                Some(reason.clone()),
            ),
        },
        LifecycleRequest::ModerationReject { reason } => (
            TaskStatus::Rejected,
            PlanOutcome::Done,
            Some(reason.clone()),
        ),
        _ => (request.kind().target_status(), PlanOutcome::Done, None),
    }
}

/// Plans an operation: checks that the task exists, that the actor may ask,
/// and that the state machine allows the edge, and says what to persist and
/// which payment step must succeed first.
pub fn plan(request: &LifecycleRequest, task: Option<&TaskFacts>, actor: &AuthUser) -> (r: Result<
    LifecyclePlan,
    AppError,
>)
    ensures
        match r {
            Ok(planned) => {
                &&& task matches Some(facts)
                &&& request.refusal(Some(*facts), *actor) is None
                &&& planned.is_plan_for(*request, *facts)
                &&& planned.follows_the_graph()
            },
            Err(e) => request.refusal(
                match task {
                    Some(facts) => Some(*facts),
                    None => None,
                },
                *actor,
            ) == Some(e@),
        },
{
    let facts = match task {
        Some(facts) => facts,
        None => {
            return Err(failure(ErrorKind::NotFound, "Task not found"));
        },
    };
    let operation = request.kind();
    let role = operation.required_role();
    if !role.is_held_by(facts, actor) {
        return Err(failure(ErrorKind::Forbidden, role.refusal_text()));
    }
    match facts.status.transition_to(operation.target_status()) {
        Ok(_) => {},
        Err(refused) => {
            return Err(AppError::invalid_transition(&refused));
        },
    }
    match check_conditions(request, facts, actor) {
        Ok(_) => {},
        Err(e) => {
            return Err(e);
        },
    }
    let payment = payment_step(request, facts, actor);
    let (to, outcome, reason) = settle(request);
    let assignee = match request {
        LifecycleRequest::Assign { applicant, .. } => *applicant,
        _ => None,
    };
    Ok(LifecyclePlan { operation, from: facts.status, to, payment, assignee, outcome, reason })
}

/// Where the carrying out of a plan stands.
#[derive(Debug, Clone, Copy, PartialEq, Eq, Structural)]
pub enum Phase {
    AwaitingPayment,
    AwaitingCommit,
    Finished,
}

/// What the caller reports back after performing an action.
#[derive(Debug, Clone, PartialEq, Eq)]
pub enum Event {
    PaymentSucceeded,
    PaymentFailed(String),
    /// The status was persisted.
    Committed,
    /// The status was not persisted: the task no longer had the expected
    /// status.
    CommitConflict,
    StorageFailed(String),
    /// A check on the way failed, such as a payment record that is missing.
    Refused(AppError),
}

/// What the caller is to do next.
#[derive(Debug, PartialEq, Eq)]
pub enum Action {
    CallPayment(PaymentStep),
    /// Persist `status`, provided the task still has the status `expected`.
    Commit { expected: TaskStatus, status: TaskStatus },
    /// Answer the request; nothing more is to be done.
    Finish(Result<TaskStatus, AppError>),
}

/// An action as a mathematical value.
pub enum Directive {
    CallPayment(PaymentStep),
    Commit { expected: TaskStatus, status: TaskStatus },
    Finish(Result<TaskStatus, Failure>),
}

impl View for Action {
    type V = Directive;

    open spec fn view(&self) -> Directive {
        match self {
            Action::CallPayment(step) => Directive::CallPayment(*step),
            Action::Commit { expected, status } => Directive::Commit {
                expected: *expected,
                status: *status,
            },
            Action::Finish(answer) => Directive::Finish(
                match answer {
                    Ok(status) => Ok(*status),
                    Err(e) => Err(e@),
                },
            ),
        }
    }
}

/// The first move of a plan: the payment step where there is one, and the
/// commit where there is none.
pub open spec fn first_move(planned: LifecyclePlan) -> (Phase, Directive) {
    if planned.payment is NotNeeded {
        (Phase::AwaitingCommit, Directive::Commit { expected: planned.from, status: planned.to })
    } else {
        (Phase::AwaitingPayment, Directive::CallPayment(planned.payment))
    }
}

/// The move that follows an event.
pub open spec fn next_move(planned: LifecyclePlan, phase: Phase, event: Event) -> (
    Phase,
    Directive,
) {
    match (phase, event) {
        (Phase::AwaitingPayment, Event::PaymentSucceeded) => (
            Phase::AwaitingCommit,
            Directive::Commit { expected: planned.from, status: planned.to },
        ),
        (Phase::AwaitingPayment, Event::PaymentFailed(reason)) => (
            Phase::Finished,
            Directive::Finish(Err(Failure { kind: ErrorKind::PaymentError, reason: reason@ })),
        ),
        (Phase::AwaitingCommit, Event::Committed) => (
            Phase::Finished,
            Directive::Finish(planned.answer()),
        ),
        (Phase::AwaitingCommit, Event::CommitConflict) => (
            Phase::Finished,
            Directive::Finish(
                Err(
                    Failure {
                        kind: ErrorKind::Conflict,
                        reason: "Task was changed by another request"@,
                    },
                ),
            ),
        ),
        (Phase::AwaitingPayment, Event::StorageFailed(reason))
        | (Phase::AwaitingCommit, Event::StorageFailed(reason)) => (
            Phase::Finished,
            Directive::Finish(Err(Failure { kind: ErrorKind::Database, reason: reason@ })),
        ),
        (Phase::AwaitingPayment, Event::Refused(error))
        | (Phase::AwaitingCommit, Event::Refused(error)) => (
            Phase::Finished,
            Directive::Finish(Err(error@)),
        ),
        _ => (
            Phase::Finished,
            Directive::Finish(
                Err(Failure { kind: ErrorKind::Internal, reason: "Unexpected event"@ }),
            ),
        ),
    }
}

/// Starts carrying out a plan.
pub fn begin(planned: &LifecyclePlan) -> (r: (Phase, Action))
    ensures
        (r.0, r.1@) == first_move(*planned),
{
    match planned.payment {
        PaymentStep::NotNeeded => (
            Phase::AwaitingCommit,
            Action::Commit { expected: planned.from, status: planned.to },
        ),
        step => (Phase::AwaitingPayment, Action::CallPayment(step)),
    }
}

/// The answer of a plan whose status was persisted.
fn answer_of(planned: &LifecyclePlan) -> (answer: Result<TaskStatus, AppError>)
    ensures
        match answer {
            Ok(status) => planned.answer() == Ok::<TaskStatus, Failure>(status),
            Err(e) => planned.answer() == Err::<TaskStatus, Failure>(e@),
        },
{
    let reason = match &planned.reason {
        Some(reason) => reason.clone(),
        None => String::new(),
    };
    match planned.outcome {
        PlanOutcome::Done => Ok(planned.to),
        PlanOutcome::ContentRejected => Err(AppError::ContentRejected(reason)),
        PlanOutcome::ContentFlagged => Err(AppError::ContentFlagged(reason)),
    }
}

/// Takes what the caller reports and says what to do next.
pub fn step(planned: &LifecyclePlan, phase: Phase, event: Event) -> (r: (Phase, Action))
    ensures
        (r.0, r.1@) == next_move(*planned, phase, event),
{
    match (phase, event) {
        (Phase::AwaitingPayment, Event::PaymentSucceeded) => (
            Phase::AwaitingCommit,
            Action::Commit { expected: planned.from, status: planned.to },
        ),
        (Phase::AwaitingPayment, Event::PaymentFailed(reason)) => (
            Phase::Finished,
            Action::Finish(Err(AppError::PaymentError(reason))),
        ),
        (Phase::AwaitingCommit, Event::Committed) => (
            Phase::Finished,
            Action::Finish(answer_of(planned)),
        ),
        (Phase::AwaitingCommit, Event::CommitConflict) => (
            Phase::Finished,
            Action::Finish(
                Err(failure(ErrorKind::Conflict, "Task was changed by another request")),
            ),
        ),
        (Phase::AwaitingPayment, Event::StorageFailed(reason)) => (
            Phase::Finished,
            Action::Finish(Err(AppError::Database(reason))),
        ),
        (Phase::AwaitingCommit, Event::StorageFailed(reason)) => (
            Phase::Finished,
            Action::Finish(Err(AppError::Database(reason))),
        ),
        (Phase::AwaitingPayment, Event::Refused(error)) => (
            Phase::Finished,
            Action::Finish(Err(error)),
        ),
        (Phase::AwaitingCommit, Event::Refused(error)) => (
            Phase::Finished,
            Action::Finish(Err(error)),
        ),
        _ => (
            Phase::Finished,
            Action::Finish(Err(failure(ErrorKind::Internal, "Unexpected event"))),
        ),
    }
}

/// Where a plan stands, and what is to be done, after the caller has reported
/// the given events one after the other.
pub open spec fn state_after(planned: LifecyclePlan, events: Seq<Event>) -> (Phase, Directive)
    decreases events.len(),
{
    if events.len() == 0 {
        first_move(planned)
    } else {
        next_move(planned, state_after(planned, events.drop_last()).0, events.last())
    }
}

/// Every plan is over after two events at the latest: whatever is reported
/// after that, the answer is a failure and nothing is persisted.
pub proof fn lemma_run_finishes(planned: LifecyclePlan, events: Seq<Event>)
    ensures
        events.len() >= 1 ==> !(state_after(planned, events).0 is AwaitingPayment),
        events.len() >= 2 ==> state_after(planned, events).0 is Finished,
        state_after(planned, events).0 is Finished <==> state_after(planned, events).1 is Finish,
    decreases events.len(),
{
    if events.len() > 0 {
        lemma_run_finishes(planned, events.drop_last());
    }
}

/// No state is persisted without its side effect: whenever the caller is
/// told to persist a status, it is the planned status with the planned
/// expectation, and either the plan has no payment step and nothing has
/// happened yet, or the one event so far is the success of the payment step.
pub proof fn lemma_commit_only_after_payment(planned: LifecyclePlan, events: Seq<Event>)
    requires
        state_after(planned, events).1 is Commit,
    ensures
        state_after(planned, events).1 == (Directive::Commit {
            expected: planned.from,
            status: planned.to,
        }),
        planned.payment is NotNeeded ==> events.len() == 0,
        !(planned.payment is NotNeeded) ==> events.len() == 1 && events[0] is PaymentSucceeded,
    decreases events.len(),
{
    if events.len() > 0 {
        let before = events.drop_last();
        lemma_run_finishes(planned, before);
        assert(state_after(planned, before).0 is AwaitingPayment);
        assert(before.len() == 0);
        assert(events.last() == events[0]);
    }
}

/// A failed payment ends the operation with a payment failure that carries
/// the collaborator's reason; the status is left as it was.
pub proof fn lemma_payment_failure_changes_nothing(planned: LifecyclePlan, reason: String)
    requires
        !(planned.payment is NotNeeded),
    ensures
        state_after(planned, seq![Event::PaymentFailed(reason)]) == (
            Phase::Finished,
            Directive::Finish(Err(Failure { kind: ErrorKind::PaymentError, reason: reason@ })),
        ),
{
    let events = seq![Event::PaymentFailed(reason)];
    assert(events.drop_last() =~= Seq::<Event>::empty());
    assert(state_after(planned, events.drop_last()) == first_move(planned));
}

/// Of two requests that race for the same task, the one whose commit finds
/// the status changed loses with a conflict, whatever it had planned.
pub proof fn lemma_lost_race_is_a_conflict(planned: LifecyclePlan, events: Seq<Event>)
    requires
        state_after(planned, events).1 is Commit,
    ensures
        state_after(planned, events.push(Event::CommitConflict)).1 == Directive::Finish(
            Err(
                Failure { kind: ErrorKind::Conflict, reason: "Task was changed by another request"@ },
            ),
        ),
        state_after(planned, events.push(Event::Committed)).1 == Directive::Finish(
            planned.answer(),
        ),
{
    lemma_run_finishes(planned, events);
    assert(events.push(Event::CommitConflict).drop_last() =~= events);
    assert(events.push(Event::Committed).drop_last() =~= events);
}

/// A status is only ever planned along edges of the lifecycle graph, so a
/// task in a terminal status admits no operation at all.
pub proof fn lemma_terminal_task_admits_nothing(
    request: LifecycleRequest,
    task: TaskFacts,
    actor: AuthUser,
)
    requires
        task.status.terminal(),
    ensures
        request.refusal(Some(task), actor) is Some,
{
}

/// What storage does with a commit: the status is replaced where the task
/// still has the expected one, and left alone otherwise.
pub open spec fn stored_after(current: TaskStatus, expected: TaskStatus, status: TaskStatus) -> TaskStatus {
    if current == expected {
        status
    } else {
        current
    }
}

/// Settles a commit against the status that the task has at that moment:
/// the status afterwards, and the event to report.
pub fn settle_commit(current: TaskStatus, expected: TaskStatus, status: TaskStatus) -> (r: (
    TaskStatus,
    Event,
))
    ensures
        r.0 == stored_after(current, expected, status),
        current == expected ==> r.1 == Event::Committed,
        current != expected ==> r.1 == Event::CommitConflict,
{
    if current == expected {
        (status, Event::Committed)
    } else {
        (current, Event::CommitConflict)
    }
}

/// A plan that follows the graph never persists the status it started from,
/// so a commit always shows in the stored status.
pub proof fn lemma_plan_changes_status(planned: LifecyclePlan)
    requires
        planned.follows_the_graph(),
    ensures
        planned.from != planned.to,
{
}

/// Of two operations planned on the same status, at most one wins: once the
/// first is persisted, the commit of the second leaves the task as the first
/// left it.
pub proof fn lemma_race_has_one_winner(first: LifecyclePlan, second: LifecyclePlan)
    requires
        first.follows_the_graph(),
        second.follows_the_graph(),
        first.from == second.from,
    ensures
        stored_after(first.from, first.from, first.to) == first.to,
        stored_after(first.to, second.from, second.to) == first.to,
{
}

/// What is left to do once the status of a plan is persisted.
#[derive(Debug, Clone, Copy, PartialEq, Eq)]
pub struct FollowUps {
    /// The entry for the moderation log, if the operation makes one.
    pub moderation_action: Option<&'static str>,
    /// The entry for the audit log, if the operation makes one.
    pub audit_action: Option<&'static str>,
    /// Accept the chosen application and reject the other pending ones.
    pub settle_applications: bool,
    /// The user whose reputation and trust level are to be recomputed.
    pub refresh_reputation_of: Option<u128>,
    /// The user to check for automatic suspension.
    pub check_suspension_of: Option<u128>,
}

impl LifecyclePlan {
    /// The action recorded in the moderation log.
    pub open spec fn moderation_entry(self) -> Option<Seq<char>> {
        match self.operation {
            Operation::Publish => match self.outcome {
                PlanOutcome::Done => Some("approved"@),
                PlanOutcome::ContentRejected => Some("rejected"@),
                PlanOutcome::ContentFlagged => Some("flagged"@),
            },
            Operation::ModerationApprove => Some("approved"@),
            Operation::ModerationReject => Some("rejected"@),
            _ => None,
        }
    }

    /// The action recorded in the audit log. Publishing is audited only when
    /// the task was in fact published.
    pub open spec fn audit_entry(self) -> Option<Seq<char>> {
        match self.operation {
            Operation::Publish => if self.outcome is Done {
                Some("task.published"@)
            } else {
                None
            },
            Operation::Assign => Some("task.assigned"@),
            Operation::Start => Some("task.started"@),
            Operation::Submit => Some("task.submitted"@),
            Operation::Approve => Some("task.completed"@),
            Operation::Dispute => Some("task.disputed"@),
            Operation::Resolve => Some("admin.dispute.resolved"@),
            Operation::Cancel => Some("task.cancelled"@),
            Operation::ModerationApprove => Some("admin.moderation.approved"@),
            Operation::ModerationReject => Some("admin.moderation.rejected"@),
        }
    }

    /// Whether the doer's reputation changes: a task was completed, or a
    /// dispute was settled by refund, which the doer loses.
    pub open spec fn touches_reputation(self) -> bool {
        self.operation is Approve || self.is_lost_dispute()
    }

    /// A dispute settled by refund.
    pub open spec fn is_lost_dispute(self) -> bool {
        self.operation is Resolve && self.payment is Refund
    }

    /// What is left to do once the status is persisted.
    pub fn follow_ups(&self, task: &TaskFacts) -> (todo: FollowUps)
        ensures
            match (todo.moderation_action, self.moderation_entry()) {
                (Some(action), Some(entry)) => action@ == entry,
                (None, None) => true,
                _ => false,
            },
            match (todo.audit_action, self.audit_entry()) {
                (Some(action), Some(entry)) => action@ == entry,
                (None, None) => true,
                _ => false,
            },
            todo.settle_applications == (self.operation is Assign),
            todo.refresh_reputation_of == if self.touches_reputation() {
                task.assigned_doer_id
            } else {
                None
            },
            todo.check_suspension_of == if self.is_lost_dispute() {
                task.assigned_doer_id
            } else {
                None
            },
    {
        let done = matches!(self.outcome, PlanOutcome::Done);
        let lost_dispute = matches!(self.operation, Operation::Resolve) && matches!(
            self.payment,
            PaymentStep::Refund
        );
        let moderation_action: Option<&'static str> = match self.operation {
            Operation::Publish => match self.outcome {
                PlanOutcome::Done => Some("approved"),
                PlanOutcome::ContentRejected => Some("rejected"),
                PlanOutcome::ContentFlagged => Some("flagged"),
            },
            Operation::ModerationApprove => Some("approved"),
            Operation::ModerationReject => Some("rejected"),
            _ => None,
        };
        let audit_action: Option<&'static str> = match self.operation {
            Operation::Publish => if done {
                Some("task.published")
            } else {
                None
            },
            Operation::Assign => Some("task.assigned"),
            Operation::Start => Some("task.started"),
            Operation::Submit => Some("task.submitted"),
            Operation::Approve => Some("task.completed"),
            Operation::Dispute => Some("task.disputed"),
            Operation::Resolve => Some("admin.dispute.resolved"),
            Operation::Cancel => Some("task.cancelled"),
            Operation::ModerationApprove => Some("admin.moderation.approved"),
            Operation::ModerationReject => Some("admin.moderation.rejected"),
        };
        let touches = matches!(self.operation, Operation::Approve) || lost_dispute;
        FollowUps {
            moderation_action,
            audit_action,
            settle_applications: matches!(self.operation, Operation::Assign),
            refresh_reputation_of: if touches {
                task.assigned_doer_id
            } else {
                None
            },
            check_suspension_of: if lost_dispute {
                task.assigned_doer_id
            } else {
                None
            },
        }
    }
}

impl LifecyclePlan {
    /// The reason that the moderation log gives for its entry: the stored
    /// reason where there is one, and otherwise that the content was found
    /// clean, or that an administrator approved it.
    pub open spec fn moderation_reason(self) -> Option<Seq<char>> {
        match self.moderation_entry() {
            None => None,
            Some(_) => match self.reason {
                Some(reason) => Some(reason@),
                None => if self.operation is ModerationApprove {
                    Some("Manual admin approval"@)
                } else {
                    Some("Automated: content clean"@)
                },
            },
        }
    }

    /// The reason to store as the reason of rejection: the plan's reason,
    /// where the task ends up rejected.
    pub open spec fn rejection_reason(self) -> Option<Seq<char>> {
        match self.reason {
            Some(reason) => if self.to is Rejected {
                Some(reason@)
            } else {
                None
            },
            None => None,
        }
    }

    /// The reason to store as a note for the moderators: the plan's reason,
    /// where the content was flagged.
    pub open spec fn moderation_note(self) -> Option<Seq<char>> {
        match self.reason {
            Some(reason) => if self.outcome is ContentFlagged {
                Some(reason@)
            } else {
                None
            },
            None => None,
        }
    }

    /// The reason for the entry in the moderation log, if the operation
    /// makes one.
    pub fn log_reason(&self) -> (r: Option<String>)
        ensures
            match (r, self.moderation_reason()) {
                (Some(given), Some(reason)) => given@ == reason,
                (None, None) => true,
                _ => false,
            },
    {
        match self.operation {
            Operation::Publish | Operation::ModerationApprove | Operation::ModerationReject => {},
            _ => {
                return None;
            },
        }
        match &self.reason {
            Some(reason) => Some(reason.clone()),
            None => if matches!(self.operation, Operation::ModerationApprove) {
                Some(String::from_str("Manual admin approval"))
            } else {
                Some(String::from_str("Automated: content clean"))
            },
        }
    }

    /// What to store with the status: the reason of rejection and the note
    /// for the moderators, each where it applies.
    pub fn stored_reasons(&self) -> (r: (Option<String>, Option<String>))
        ensures
            match (r.0, self.rejection_reason()) {
                (Some(given), Some(reason)) => given@ == reason,
                (None, None) => true,
                _ => false,
            },
            match (r.1, self.moderation_note()) {
                (Some(given), Some(reason)) => given@ == reason,
                (None, None) => true,
                _ => false,
            },
    {
        match &self.reason {
            Some(reason) => {
                let rejection = if matches!(self.to, TaskStatus::Rejected) {
                    Some(reason.clone())
                } else {
                    None
                };
                let note = if matches!(self.outcome, PlanOutcome::ContentFlagged) {
                    Some(reason.clone())
                } else {
                    None
                };
                (rejection, note)
            },
            None => (None, None),
        }
    }
}

/// The event that reports how a payment step went: a failure of the
/// collaborator as such, a failure of storage as such, and any other failure
/// as a refusal.
pub open spec fn payment_outcome(outcome: Result<(), AppError>) -> Event {
    match outcome {
        Ok(_) => Event::PaymentSucceeded,
        Err(AppError::PaymentError(reason)) => Event::PaymentFailed(reason),
        Err(AppError::Database(reason)) => Event::StorageFailed(reason),
        Err(other) => Event::Refused(other),
    }
}

/// The event that reports how a commit went. `saved` says whether the task
/// still had the expected status.
pub open spec fn commit_outcome(outcome: Result<bool, AppError>) -> Event {
    match outcome {
        Ok(saved) => if saved {
            Event::Committed
        } else {
            Event::CommitConflict
        },
        Err(AppError::Database(reason)) => Event::StorageFailed(reason),
        Err(other) => Event::Refused(other),
    }
}

pub fn payment_event(outcome: Result<(), AppError>) -> (event: Event)
    ensures
        event == payment_outcome(outcome),
{
    match outcome {
        Ok(_) => Event::PaymentSucceeded,
        Err(AppError::PaymentError(reason)) => Event::PaymentFailed(reason),
        Err(AppError::Database(reason)) => Event::StorageFailed(reason),
        Err(other) => Event::Refused(other),
    }
}

pub fn commit_event(outcome: Result<bool, AppError>) -> (event: Event)
    ensures
        event == commit_outcome(outcome),
{
    match outcome {
        Ok(saved) => if saved {
            Event::Committed
        } else {
            Event::CommitConflict
        },
        Err(AppError::Database(reason)) => Event::StorageFailed(reason),
        Err(other) => Event::Refused(other),
    }
}

/// Disputes lost within the window at which an account is suspended.
pub const AUTO_SUSPEND_LOSSES: i64 = 3;

/// The length of the window, in days.
pub const AUTO_SUSPEND_WINDOW_DAYS: i64 = 30;

/// Automatic suspension: an account that has lost 3 or more disputes within
/// the trailing 30 days is suspended.
pub fn should_auto_suspend(recent_losses: i64) -> (suspend: bool)
    ensures
        suspend == (recent_losses >= 3),
{
    recent_losses >= AUTO_SUSPEND_LOSSES
}

} // verus!
