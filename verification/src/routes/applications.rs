//! Applying to a task.

use vstd::prelude::*;
use crate::auth::middleware::AuthUser;
use crate::errors::{failure, AppError, ErrorKind, Failure};
use crate::models::task::TaskStatus;
use crate::models::task_application::CreateApplicationRequest;
use crate::models::user::{max_concurrent, max_task_value, TrustLevelRequirements};
use crate::services::lifecycle::TaskFacts;
use crate::services::moderation::{first_match, verdict_of, ModerationClassifier, ModerationResult, Verdict};
use crate::text::{concat3, dollars, dollars_to_string, i64_to_string, signed_decimal};

verus! {

/// What storage knows of the applicant.
#[derive(Debug, Clone, Copy, PartialEq, Eq, Structural)]
pub struct ApplicantFacts {
    /// Tasks that the applicant is working on: assigned, in progress or
    /// submitted.
    pub active_tasks: i64,
    /// Whether the applicant has applied to the same task before.
    pub already_applied: bool,
}

/// Why an application is refused, if it is, before its message is looked
/// at. The checks run in this order: the task exists and is published, it
/// is not the applicant's own, the applicant's trust level lets them apply,
/// they have room for another task, the task's value is within their level,
/// and they have not applied before.
pub open spec fn application_refusal(
    task: Option<TaskFacts>,
    actor: AuthUser,
    applicant: ApplicantFacts,
) -> Option<Failure> {
    match task {
        None => Some(Failure { kind: ErrorKind::NotFound, reason: "Task not found"@ }),
        Some(task) => {
            let level = actor.trust_level as int;
            if !(task.status is Published) {
                Some(
                    Failure {
                        kind: ErrorKind::BadRequest,
                        reason: "Can only apply to published tasks"@,
                    },
                )
            } else if task.requester_id == actor.user_id {
                Some(
                    Failure { kind: ErrorKind::BadRequest, reason: "Cannot apply to your own task"@ },
                )
            } else if level < 0 {
                Some(
                    Failure {
                        kind: ErrorKind::TrustLevelInsufficient,
                        reason: "Cannot apply for tasks at this trust level"@,
                    },
                )
            } else if applicant.active_tasks >= max_concurrent(level) {
                Some(
                    Failure {
                        kind: ErrorKind::BadRequest,
                        reason: "Maximum concurrent doer tasks reached ("@ + signed_decimal(
                            max_concurrent(level),
                        ) + ")"@,
                    },
                )
            } else if task.price_cents > max_task_value(level) {
                Some(
                    Failure {
                        kind: ErrorKind::TrustLevelInsufficient,
                        reason: "Task value exceeds your trust level maximum ($"@ + dollars(
                            max_task_value(level) as nat,
                        ) + ")"@,
                    },
                )
            } else if applicant.already_applied {
                Some(Failure { kind: ErrorKind::Conflict, reason: "Already applied to the task"@ })
            } else {
                None
            }
        },
    }
}

/// Checks an application against the task, the applicant's trust level and
/// their workload.
pub fn check_application(task: Option<&TaskFacts>, actor: &AuthUser, applicant: &ApplicantFacts) -> (r:
    Result<(), AppError>)
    ensures
        match r {
            Ok(_) => task is Some && application_refusal(
                Some(*task.unwrap()),
                *actor,
                *applicant,
            ) is None,
            Err(e) => application_refusal(
                match task {
                    Some(facts) => Some(*facts),
                    None => None,
                },
                *actor,
                *applicant,
            ) == Some(e@),
        },
{
    let facts = match task {
        Some(facts) => facts,
        None => {
            return Err(failure(ErrorKind::NotFound, "Task not found"));
        },
    };
    if !matches!(facts.status, TaskStatus::Published) {
        return Err(failure(ErrorKind::BadRequest, "Can only apply to published tasks"));
    }
    if facts.requester_id == actor.user_id {
        return Err(failure(ErrorKind::BadRequest, "Cannot apply to your own task"));
    }
    if !TrustLevelRequirements::can_apply_for_tasks(actor.trust_level) {
        return Err(
            failure(
                ErrorKind::TrustLevelInsufficient,
                "Cannot apply for tasks at this trust level",
            ),
        );
    }
    let max_concurrent_tasks = TrustLevelRequirements::max_concurrent_doer(actor.trust_level);
    if applicant.active_tasks >= max_concurrent_tasks as i64 {
        let reason = concat3(
            "Maximum concurrent doer tasks reached (",
            i64_to_string(max_concurrent_tasks as i64).as_str(),
            ")",
        );
        return Err(AppError::BadRequest(reason));
    }
    let max_value = TrustLevelRequirements::max_task_value_cents(actor.trust_level);
    if facts.price_cents > max_value {
        let reason = concat3(
            "Task value exceeds your trust level maximum ($",
            dollars_to_string(max_value as u64).as_str(),
            ")",
        );
        return Err(AppError::TrustLevelInsufficient(reason));
    }
    if applicant.already_applied {
        return Err(failure(ErrorKind::Conflict, "Already applied to the task"));
    }
    Ok(())
}

/// What comes of a text that is rejected only when moderation rejects it:
/// flagged text passes.
pub open spec fn rejection_of(verdict: Verdict) -> Option<Failure> {
    match verdict {
        Verdict::Rejected(reason) => Some(Failure { kind: ErrorKind::ContentRejected, reason }),
        _ => None,
    }
}

/// Lets a verdict pass unless it is a rejection.
pub fn reject_only(verdict: ModerationResult) -> (r: Result<(), AppError>)
    ensures
        match r {
            Ok(_) => rejection_of(verdict@) is None,
            Err(e) => rejection_of(verdict@) == Some(e@),
        },
{
    match verdict {
        ModerationResult::Rejected(reason) => Err(AppError::ContentRejected(reason)),
        ModerationResult::Flagged(_) | ModerationResult::Clean => Ok(()),
    }
}

/// Moderates the message of an application, where it has one. Rejected
/// content refuses the application; flagged content still goes through.
pub fn check_application_message(
    classifier: &ModerationClassifier,
    request: &CreateApplicationRequest,
) -> (r: Result<(), AppError>)
    ensures
        match request.message {
            Some(message) => match r {
                Ok(_) => rejection_of(
                    verdict_of(first_match(classifier.rules(), message@)),
                ) is None,
                Err(e) => rejection_of(verdict_of(first_match(classifier.rules(), message@)))
                    == Some(e@),
            },
            None => r is Ok,
        },
{
    match &request.message {
        Some(message) => reject_only(classifier.classify(message.as_str())),
        None => Ok(()),
    }
}

/// Only the requester sees the applications to a task.
pub fn check_application_listing(task: Option<&TaskFacts>, actor: &AuthUser) -> (r: Result<
    (),
    AppError,
>)
    ensures
        match r {
            Ok(_) => task matches Some(facts) && facts.requester_id == actor.user_id,
            Err(e) => match task {
                None => e@ == (Failure { kind: ErrorKind::NotFound, reason: "Task not found"@ }),
                Some(facts) => facts.requester_id != actor.user_id && e@ == (Failure {
                    kind: ErrorKind::Forbidden,
                    reason: "Not your task"@,
                }),
            },
        },
{
    match task {
        None => Err(failure(ErrorKind::NotFound, "Task not found")),
        Some(facts) => if facts.requester_id != actor.user_id {
            Err(failure(ErrorKind::Forbidden, "Not your task"))
        } else {
            Ok(())
        },
    }
}

} // verus!
