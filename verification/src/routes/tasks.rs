//! Creating, editing, listing and publishing tasks.

use vstd::prelude::*;
use vstd::string::StringExecFns;
use crate::auth::middleware::AuthUser;
use crate::errors::{failure, AppError, ErrorKind, Failure};
use crate::models::task::{TaskStatus, MIN_TASK_PRICE_CENTS};
use crate::models::user::{max_posted, max_task_value, TrustLevelRequirements};
use crate::services::lifecycle::{LifecycleRequest, TaskFacts};
use crate::services::moderation::{first_match, verdict_of, ModerationClassifier};
use crate::text::{concat3, dollars, dollars_to_string, i64_to_string, signed_decimal, str_eq};

verus! {

#[derive(Debug, Clone, PartialEq, Eq)]
pub struct SubmitTaskRequest {
    pub completion_notes: Option<String>,
}

/// Why a user may not post tasks at all, if they may not.
pub open spec fn posting_refusal(level: int) -> Option<Failure> {
    if level < 1 {
        Some(
            Failure {
                kind: ErrorKind::TrustLevelInsufficient,
                reason: "Trust Level 1 required to post tasks"@,
            },
        )
    } else if max_posted(level) is None {
        Some(
            Failure {
                kind: ErrorKind::TrustLevelInsufficient,
                reason: "Cannot post tasks at this trust level"@,
            },
        )
    } else {
        None
    }
}

/// The number of open tasks that the user may have posted at once.
pub fn posting_limit(actor: &AuthUser) -> (r: Result<i32, AppError>)
    ensures
        match r {
            Ok(limit) => posting_refusal(actor.trust_level as int) is None && max_posted(
                actor.trust_level as int,
            ) == Some(limit as int),
            Err(e) => posting_refusal(actor.trust_level as int) == Some(e@),
        },
{
    if !TrustLevelRequirements::can_post_tasks(actor.trust_level) {
        return Err(
            failure(ErrorKind::TrustLevelInsufficient, "Trust Level 1 required to post tasks"),
        );
    }
    match TrustLevelRequirements::max_active_posted(actor.trust_level) {
        Some(limit) => Ok(limit),
        None => Err(
            failure(ErrorKind::TrustLevelInsufficient, "Cannot post tasks at this trust level"),
        ),
    }
}

/// What a user wants to post, as far as the checks read it.
#[derive(Debug, Clone, Copy, PartialEq, Eq, Structural)]
pub struct NewTask {
    pub price_cents: i64,
    /// The deadline and the present moment, in seconds.
    pub deadline: i64,
    pub now: i64,
    pub in_person: bool,
    pub has_address: bool,
}

/// Why a new task is refused, if it is. The checks run in this order: the
/// number of open tasks, the minimum price, the maximum value at the user's
/// trust level, the deadline, and the address of an in-person task.
pub open spec fn new_task_refusal(
    level: int,
    limit: int,
    active_count: int,
    task: NewTask,
) -> Option<Failure> {
    if active_count >= limit {
        Some(
            Failure {
                kind: ErrorKind::BadRequest,
                reason: "Maximum active tasks reached ("@ + signed_decimal(limit) + ")"@,
            },
        )
    } else if task.price_cents < MIN_TASK_PRICE_CENTS {
        Some(
            Failure {
                kind: ErrorKind::BadRequest,
                reason: "Minimum task price is $"@ + dollars(MIN_TASK_PRICE_CENTS as nat),
            },
        )
    } else if task.price_cents > max_task_value(level) {
        Some(
            Failure {
                kind: ErrorKind::TrustLevelInsufficient,
                reason: "Maximum task value at your trust level is $"@ + dollars(
                    max_task_value(level) as nat,
                ),
            },
        )
    } else if task.deadline <= task.now {
        Some(Failure { kind: ErrorKind::BadRequest, reason: "Deadline must be in the future"@ })
    } else if task.in_person && !task.has_address {
        Some(
            Failure {
                kind: ErrorKind::BadRequest,
                reason: "Address required for in-person tasks"@,
            },
        )
    } else {
        None
    }
}

/// The failure for a price below the minimum.
fn below_minimum_price() -> (e: AppError)
    ensures
        e@ == (Failure {
            kind: ErrorKind::BadRequest,
            reason: "Minimum task price is $"@ + dollars(MIN_TASK_PRICE_CENTS as nat),
        }),
{
    let mut reason = String::from_str("Minimum task price is $");
    reason.append(dollars_to_string(MIN_TASK_PRICE_CENTS as u64).as_str());
    AppError::BadRequest(reason)
}

/// Checks a task that a user who may post wants to create. `limit` is the
/// user's posting limit and `active_count` the number of their tasks that
/// are not in a terminal status.
pub fn check_new_task(actor: &AuthUser, limit: i32, active_count: i64, task: &NewTask) -> (r:
    Result<(), AppError>)
    ensures
        match r {
            Ok(_) => new_task_refusal(
                actor.trust_level as int,
                limit as int,
                active_count as int,
                *task,
            ) is None,
            Err(e) => new_task_refusal(
                actor.trust_level as int,
                limit as int,
                active_count as int,
                *task,
            ) == Some(e@),
        },
{
    if active_count >= limit as i64 {
        let reason = concat3(
            "Maximum active tasks reached (",
            i64_to_string(limit as i64).as_str(),
            ")",
        );
        return Err(AppError::BadRequest(reason));
    }
    if task.price_cents < MIN_TASK_PRICE_CENTS {
        return Err(below_minimum_price());
    }
    let max_value = TrustLevelRequirements::max_task_value_cents(actor.trust_level);
    if task.price_cents > max_value {
        let mut reason = String::from_str("Maximum task value at your trust level is $");
        reason.append(dollars_to_string(max_value as u64).as_str());
        return Err(AppError::TrustLevelInsufficient(reason));
    }
    if task.deadline <= task.now {
        return Err(failure(ErrorKind::BadRequest, "Deadline must be in the future"));
    }
    if task.in_person && !task.has_address {
        return Err(failure(ErrorKind::BadRequest, "Address required for in-person tasks"));
    }
    Ok(())
}

/// Whether a stored location type asks for an address.
pub fn is_in_person(location_type: &str) -> (in_person: bool)
    ensures
        in_person == (location_type@ == "in_person"@),
{
    str_eq(location_type, "in_person")
}

/// Why an edit is refused, if it is: only the requester may edit, only a
/// draft can be edited, and the price may not fall below the minimum.
pub open spec fn update_refusal(
    task: Option<TaskFacts>,
    actor: AuthUser,
    new_price: Option<i64>,
) -> Option<Failure> {
    match task {
        None => Some(Failure { kind: ErrorKind::NotFound, reason: "Task not found"@ }),
        Some(task) => if task.requester_id != actor.user_id {
            Some(Failure { kind: ErrorKind::Forbidden, reason: "Not your task"@ })
        } else if !(task.status is Draft) {
            Some(Failure { kind: ErrorKind::BadRequest, reason: "Can only edit draft tasks"@ })
        } else if effective_price(task, new_price) < MIN_TASK_PRICE_CENTS {
            Some(
                Failure {
                    kind: ErrorKind::BadRequest,
                    reason: "Minimum task price is $"@ + dollars(MIN_TASK_PRICE_CENTS as nat),
                },
            )
        } else {
            None
        },
    }
}

/// The price of a task after an edit: the new one where one is given.
pub open spec fn effective_price(task: TaskFacts, new_price: Option<i64>) -> i64 {
    match new_price {
        Some(price) => price,
        None => task.price_cents,
    }
}

/// Checks an edit and gives the price that the task has after it.
pub fn check_update(task: Option<&TaskFacts>, actor: &AuthUser, new_price: Option<i64>) -> (r:
    Result<i64, AppError>)
    ensures
        match r {
            Ok(price) => task matches Some(facts) && update_refusal(Some(*facts), *actor, new_price)
                is None && price == effective_price(*facts, new_price),
            Err(e) => update_refusal(
                match task {
                    Some(facts) => Some(*facts),
                    None => None,
                },
                *actor,
                new_price,
            ) == Some(e@),
        },
{
    let facts = match task {
        Some(facts) => facts,
        None => {
            return Err(failure(ErrorKind::NotFound, "Task not found"));
        },
    };
    if facts.requester_id != actor.user_id {
        return Err(failure(ErrorKind::Forbidden, "Not your task"));
    }
    if !matches!(facts.status, TaskStatus::Draft) {
        return Err(failure(ErrorKind::BadRequest, "Can only edit draft tasks"));
    }
    let price = match new_price {
        Some(price) => price,
        None => facts.price_cents,
    };
    if price < MIN_TASK_PRICE_CENTS {
        return Err(below_minimum_price());
    }
    Ok(price)
}

/// Reads the stored status of a task. A name that is no status is a fault of
/// the stored data, not of the request.
pub fn stored_status(status: &str) -> (r: Result<TaskStatus, AppError>)
    ensures
        match r {
            Ok(parsed) => TaskStatus::parse(status@) == Some(parsed),
            Err(e) => TaskStatus::parse(status@) is None && e@ == (Failure {
                kind: ErrorKind::Internal,
                reason: "Invalid task status"@,
            }),
        },
{
    match TaskStatus::from_str(status) {
        Some(parsed) => Ok(parsed),
        None => Err(failure(ErrorKind::Internal, "Invalid task status")),
    }
}

/// The text of a task that moderation judges: title and description, with a
/// blank between them.
pub open spec fn moderated_text(title: Seq<char>, description: Seq<char>) -> Seq<char> {
    title + " "@ + description
}

/// The request to publish a task: judges title and description together.
pub fn publish_request(classifier: &ModerationClassifier, title: &str, description: &str) -> (r:
    LifecycleRequest)
    ensures
        r matches LifecycleRequest::Publish { verdict } && verdict@ == verdict_of(
            first_match(classifier.rules(), moderated_text(title@, description@)),
        ),
{
    let combined = concat3(title, " ", description);
    LifecycleRequest::Publish { verdict: classifier.classify(combined.as_str()) }
}

/// One page of a listing.
#[derive(Debug, Clone, Copy, PartialEq, Eq, Structural)]
pub struct Page {
    pub page: i64,
    pub per_page: i64,
    pub offset: i64,
}

/// The page number asked for, at least 1; 1 where none is given.
pub open spec fn page_number(page: Option<i64>) -> int {
    match page {
        Some(n) => if n < 1 {
            1
        } else {
            n as int
        },
        None => 1,
    }
}

/// The page size asked for, at most `most`; `usual` where none is given.
pub open spec fn page_size(per_page: Option<i64>, usual: i64, most: i64) -> int {
    match per_page {
        Some(n) => if n > most {
            most as int
        } else {
            n as int
        },
        None => if usual > most {
            most as int
        } else {
            usual as int
        },
    }
}

/// Works out page number, page size and offset from what the query gives.
/// `None` where the offset does not fit the integer type.
pub fn paginate(page: Option<i64>, per_page: Option<i64>, usual: i64, most: i64) -> (r: Option<
    Page,
>)
    ensures
        ({
            let number = page_number(page);
            let size = page_size(per_page, usual, most);
            let offset = (number - 1) * size;
            match r {
                Some(p) => p.page == number && p.per_page == size && p.offset == offset,
                None => offset < i64::MIN || offset > i64::MAX,
            }
        }),
{
    let number: i64 = match page {
        Some(n) => if n < 1 {
            1
        } else {
            n
        },
        None => 1,
    };
    let asked: i64 = match per_page {
        Some(n) => n,
        None => usual,
    };
    let size: i64 = if asked > most {
        most
    } else {
        asked
    };
    match (number - 1).checked_mul(size) {
        Some(offset) => Some(Page { page: number, per_page: size, offset }),
        None => None,
    }
}

/// Page size of the task listing: 20 unless asked otherwise, at most 100.
pub fn paginate_tasks(page: Option<i64>, per_page: Option<i64>) -> (r: Option<Page>)
    ensures
        ({
            let offset = (page_number(page) - 1) * page_size(per_page, 20, 100);
            match r {
                Some(p) => p.page == page_number(page) && p.per_page == page_size(per_page, 20, 100)
                    && p.offset == offset,
                None => offset < i64::MIN || offset > i64::MAX,
            }
        }),
{
    paginate(page, per_page, 20, 100)
}

} // verus!
