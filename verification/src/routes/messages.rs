//! Messages on a task: between requester and assigned doer, after
//! assignment only. Contact information is scrubbed, not refused.

use vstd::prelude::*;
use crate::auth::middleware::AuthUser;
use crate::errors::{failure, AppError, ErrorKind, Failure};
use crate::models::task::TaskStatus;
use crate::models::task_message::CreateMessageRequest;
use crate::routes::applications::{reject_only, rejection_of};
use crate::services::lifecycle::TaskFacts;
use crate::services::moderation::{
    first_match_except,
    has_contact_info,
    redacted,
    verdict_for,
    verdict_of,
    ContentCategory,
    ModerationClassifier,
    Verdict,
};

verus! {

/// Messages can be read once the task has been assigned.
pub open spec fn readable_in(status: TaskStatus) -> bool {
    status is Assigned || status is InProgress || status is Submitted || status is Completed
        || status is Disputed || status is Resolved
}

/// Messages can be sent while the task is being worked on.
pub open spec fn writable_in(status: TaskStatus) -> bool {
    status is Assigned || status is InProgress || status is Submitted
}

/// Whether the actor is the requester or the assigned doer of the task.
pub open spec fn takes_part(task: TaskFacts, actor: AuthUser) -> bool {
    task.requester_id == actor.user_id || task.assigned_doer_id == Some(actor.user_id)
}

/// Why the messages of a task are kept from the actor, for reading or for
/// writing, if they are.
pub open spec fn messaging_refusal(
    task: Option<TaskFacts>,
    actor: AuthUser,
    writing: bool,
) -> Option<Failure> {
    match task {
        None => Some(Failure { kind: ErrorKind::NotFound, reason: "Task not found"@ }),
        Some(task) => if !takes_part(task, actor) {
            Some(Failure { kind: ErrorKind::Forbidden, reason: "Not a participant in the task"@ })
        } else if writing && !writable_in(task.status) {
            Some(
                Failure {
                    kind: ErrorKind::BadRequest,
                    reason: "Cannot send messages in current task state"@,
                },
            )
        } else if !writing && !readable_in(task.status) {
            Some(
                Failure {
                    kind: ErrorKind::BadRequest,
                    reason: "Messages only available after task assignment"@,
                },
            )
        } else {
            None
        },
    }
}

fn is_participant(task: &TaskFacts, actor: &AuthUser) -> (yes: bool)
    ensures
        yes == takes_part(*task, *actor),
{
    task.requester_id == actor.user_id || match task.assigned_doer_id {
        Some(doer) => doer == actor.user_id,
        None => false,
    }
}

/// Whether the actor may read the messages of the task.
pub fn check_list_messages(task: Option<&TaskFacts>, actor: &AuthUser) -> (r: Result<(), AppError>)
    ensures
        match r {
            Ok(_) => task is Some && messaging_refusal(Some(*task.unwrap()), *actor, false)
                is None,
            Err(e) => messaging_refusal(
                match task {
                    Some(t) => Some(*t),
                    None => None,
                },
                *actor,
                false,
            ) == Some(e@),
        },
{
    let task = match task {
        Some(task) => task,
        None => {
            return Err(failure(ErrorKind::NotFound, "Task not found"));
        },
    };
    if !is_participant(task, actor) {
        return Err(failure(ErrorKind::Forbidden, "Not a participant in the task"));
    }
    match task.status {
        TaskStatus::Assigned
        | TaskStatus::InProgress
        | TaskStatus::Submitted
        | TaskStatus::Completed
        | TaskStatus::Disputed
        | TaskStatus::Resolved => Ok(()),
        _ => Err(failure(ErrorKind::BadRequest, "Messages only available after task assignment")),
    }
}

/// Whether the actor may send a message on the task.
pub fn check_send_message(task: Option<&TaskFacts>, actor: &AuthUser) -> (r: Result<(), AppError>)
    ensures
        match r {
            Ok(_) => task is Some && messaging_refusal(Some(*task.unwrap()), *actor, true)
                is None,
            Err(e) => messaging_refusal(
                match task {
                    Some(t) => Some(*t),
                    None => None,
                },
                *actor,
                true,
            ) == Some(e@),
        },
{
    let task = match task {
        Some(task) => task,
        None => {
            return Err(failure(ErrorKind::NotFound, "Task not found"));
        },
    };
    if !is_participant(task, actor) {
        return Err(failure(ErrorKind::Forbidden, "Not a participant in the task"));
    }
    match task.status {
        TaskStatus::Assigned | TaskStatus::InProgress | TaskStatus::Submitted => Ok(()),
        _ => Err(failure(ErrorKind::BadRequest, "Cannot send messages in current task state")),
    }
}

/// The verdict on a message: contact information does not count against
/// it, since it is scrubbed and not refused.
pub open spec fn message_verdict(classifier: &ModerationClassifier, body: Seq<char>) -> Verdict {
    verdict_of(first_match_except(classifier.rules(), body, ContentCategory::ContactInfo))
}

/// Moderates a message: content that is rejected for anything but contact
/// information is refused, and everything else is stored with its contact
/// information replaced by the placeholder. A body without contact
/// information is stored as it was written.
pub fn sanitize_message(classifier: &ModerationClassifier, request: &CreateMessageRequest) -> (r:
    Result<String, AppError>)
    ensures
        match r {
            Ok(body) => {
                &&& rejection_of(message_verdict(classifier, request.body@)) is None
                &&& body@ == redacted(classifier.rules(), request.body@)
                &&& !has_contact_info(classifier.rules(), request.body@) ==> body@
                    == request.body@
            },
            Err(e) => rejection_of(message_verdict(classifier, request.body@)) == Some(e@),
        },
{
    let first = classifier.matched_category_except(
        request.body.as_str(),
        ContentCategory::ContactInfo,
    );
    match reject_only(verdict_for(first)) {
        Ok(_) => {},
        Err(e) => {
            return Err(e);
        },
    }
    Ok(classifier.redact(request.body.as_str()))
}

} // verus!
