//! Leaving a review after a task is completed. Both parties have 7 days.

use vstd::prelude::*;
use crate::auth::middleware::AuthUser;
use crate::errors::{failure, AppError, ErrorKind, Failure};
use crate::models::review::CreateReviewRequest;
use crate::models::task::TaskStatus;
use crate::routes::applications::{reject_only, rejection_of};
use crate::services::lifecycle::TaskFacts;
use crate::services::moderation::{first_match, verdict_of, ModerationClassifier};

verus! {

/// The review window in days, counted from the task's last change.
pub const REVIEW_WINDOW_DAYS: i64 = 7;

/// The review window in seconds.
pub const REVIEW_WINDOW_SECS: i64 = 604_800;

/// What the review checks need beyond the task itself.
#[derive(Debug, Clone, Copy, PartialEq, Eq, Structural)]
pub struct ReviewFacts {
    /// When the task last changed, and the present moment, in seconds.
    pub task_updated_at: i64,
    pub now: i64,
    /// Whether the author has written about the same task before.
    pub already_reviewed: bool,
}

/// Why a review is refused, if it is, before its comment is looked at. The
/// checks run in this order: the scores are on the scale, the task exists
/// and is completed, the author took part in it, the window is open, the
/// other party is known, and the author has not written one before.
pub open spec fn review_refusal(
    request: CreateReviewRequest,
    task: Option<TaskFacts>,
    actor: AuthUser,
    facts: ReviewFacts,
) -> Option<Failure> {
    match request.first_invalid() {
        Some(name) => Some(
            Failure { kind: ErrorKind::BadRequest, reason: name + " must be between 1 and 5"@ },
        ),
        None => match task {
            None => Some(Failure { kind: ErrorKind::NotFound, reason: "Task not found"@ }),
            Some(task) => {
                let is_requester = task.requester_id == actor.user_id;
                let is_doer = task.assigned_doer_id == Some(actor.user_id);
                if !(task.status is Completed) {
                    Some(
                        Failure {
                            kind: ErrorKind::BadRequest,
                            reason: "Reviews can only be left after task completion"@,
                        },
                    )
                } else if !is_requester && !is_doer {
                    Some(
                        Failure {
                            kind: ErrorKind::Forbidden,
                            reason: "Not a participant in the task"@,
                        },
                    )
                } else if facts.now > facts.task_updated_at + REVIEW_WINDOW_SECS {
                    Some(
                        Failure {
                            kind: ErrorKind::BadRequest,
                            reason: "Review window has closed (7 days)"@,
                        },
                    )
                } else if is_requester && task.assigned_doer_id is None {
                    Some(
                        Failure { kind: ErrorKind::Internal, reason: "Task has no assigned doer"@ },
                    )
                } else if facts.already_reviewed {
                    Some(
                        Failure { kind: ErrorKind::Conflict, reason: "Already reviewed the task"@ },
                    )
                } else {
                    None
                }
            },
        },
    }
}

/// The party that a review is about: the doer when the requester writes it,
/// and the requester otherwise.
pub open spec fn reviewee_of(task: TaskFacts, actor: AuthUser) -> u128 {
    if task.requester_id == actor.user_id {
        task.assigned_doer_id->Some_0
    } else {
        task.requester_id
    }
}

/// Checks a review and says whom it is about.
pub fn check_review(
    request: &CreateReviewRequest,
    task: Option<&TaskFacts>,
    actor: &AuthUser,
    facts: &ReviewFacts,
) -> (r: Result<u128, AppError>)
    ensures
        match r {
            Ok(reviewee) => task matches Some(t) && review_refusal(
                *request,
                Some(*t),
                *actor,
                *facts,
            ) is None && reviewee == reviewee_of(*t, *actor),
            Err(e) => review_refusal(
                *request,
                match task {
                    Some(t) => Some(*t),
                    None => None,
                },
                *actor,
                *facts,
            ) == Some(e@),
        },
{
    match request.validate() {
        Ok(_) => {},
        Err(message) => {
            return Err(AppError::BadRequest(message));
        },
    }
    let task = match task {
        Some(task) => task,
        None => {
            return Err(failure(ErrorKind::NotFound, "Task not found"));
        },
    };
    if !matches!(task.status, TaskStatus::Completed) {
        return Err(
            failure(ErrorKind::BadRequest, "Reviews can only be left after task completion"),
        );
    }
    let is_requester = task.requester_id == actor.user_id;
    let is_doer = match task.assigned_doer_id {
        Some(doer) => doer == actor.user_id,
        None => false,
    };
    if !is_requester && !is_doer {
        return Err(failure(ErrorKind::Forbidden, "Not a participant in the task"));
    }
    if facts.now as i128 > facts.task_updated_at as i128 + REVIEW_WINDOW_SECS as i128 {
        return Err(failure(ErrorKind::BadRequest, "Review window has closed (7 days)"));
    }
    let reviewee = if is_requester {
        match task.assigned_doer_id {
            Some(doer) => doer,
            None => {
                return Err(failure(ErrorKind::Internal, "Task has no assigned doer"));
            },
        }
    } else {
        task.requester_id
    };
    if facts.already_reviewed {
        return Err(failure(ErrorKind::Conflict, "Already reviewed the task"));
    }
    Ok(reviewee)
}

/// Moderates the comment of a review, where it has one. Only rejected
/// content refuses the review.
pub fn check_review_comment(classifier: &ModerationClassifier, request: &CreateReviewRequest) -> (r:
    Result<(), AppError>)
    ensures
        match request.comment {
            Some(comment) => match r {
                Ok(_) => rejection_of(
                    verdict_of(first_match(classifier.rules(), comment@)),
                ) is None,
                Err(e) => rejection_of(verdict_of(first_match(classifier.rules(), comment@)))
                    == Some(e@),
            },
            None => r is Ok,
        },
{
    match &request.comment {
        Some(comment) => reject_only(classifier.classify(comment.as_str())),
        None => Ok(()),
    }
}

} // verus!
