//! Task status and the lifecycle state machine.
//!
//! ```text
//! DRAFT -> PENDING_REVIEW -> PUBLISHED -> ASSIGNED -> IN_PROGRESS -> SUBMITTED -> COMPLETED
//!               |                |            |                          |
//!               v                v            v                          v
//!           REJECTED          EXPIRED    CANCELLED                   DISPUTED -> RESOLVED
//! ```
//!
//! `Completed`, `Resolved`, `Cancelled`, `Expired` and `Rejected` are terminal.

use vstd::prelude::*;
use vstd::string::StringExecFns;
use crate::text::str_eq;

verus! {

/// Minimum task price: $5.00 = 500 cents.
pub const MIN_TASK_PRICE_CENTS: i64 = 500;

/// Where a task stands in its lifecycle.
#[derive(Debug, Clone, Copy, PartialEq, Eq, Structural)]
pub enum TaskStatus {
    Draft,
    PendingReview,
    Published,
    Assigned,
    InProgress,
    Submitted,
    Completed,
    Disputed,
    Resolved,
    Cancelled,
    Expired,
    Rejected,
}

/// A requested status change that the state machine does not allow.
#[derive(Debug, Clone, Copy, PartialEq, Eq, Structural)]
pub struct InvalidTransition {
    pub from: TaskStatus,
    pub to: TaskStatus,
}

impl TaskStatus {
    /// The stored name of a status.
    pub open spec fn name(self) -> Seq<char> {
        match self {
            TaskStatus::Draft => "draft"@,
            TaskStatus::PendingReview => "pending_review"@,
            TaskStatus::Published => "published"@,
            TaskStatus::Assigned => "assigned"@,
            TaskStatus::InProgress => "in_progress"@,
            TaskStatus::Submitted => "submitted"@,
            TaskStatus::Completed => "completed"@,
            TaskStatus::Disputed => "disputed"@,
            TaskStatus::Resolved => "resolved"@,
            TaskStatus::Cancelled => "cancelled"@,
            TaskStatus::Expired => "expired"@,
            TaskStatus::Rejected => "rejected"@,
        }
    }

    /// The status that a stored name stands for, if any. Names are matched
    /// exactly: case matters and nothing is trimmed.
    pub open spec fn parse(s: Seq<char>) -> Option<TaskStatus> {
        if s == "draft"@ {
            Some(TaskStatus::Draft)
        } else if s == "pending_review"@ {
            Some(TaskStatus::PendingReview)
        } else if s == "published"@ {
            Some(TaskStatus::Published)
        } else if s == "assigned"@ {
            Some(TaskStatus::Assigned)
        } else if s == "in_progress"@ {
            Some(TaskStatus::InProgress)
        } else if s == "submitted"@ {
            Some(TaskStatus::Submitted)
        } else if s == "completed"@ {
            Some(TaskStatus::Completed)
        } else if s == "disputed"@ {
            Some(TaskStatus::Disputed)
        } else if s == "resolved"@ {
            Some(TaskStatus::Resolved)
        } else if s == "cancelled"@ {
            Some(TaskStatus::Cancelled)
        } else if s == "expired"@ {
            Some(TaskStatus::Expired)
        } else if s == "rejected"@ {
            Some(TaskStatus::Rejected)
        } else {
            None
        }
    }

    /// Terminal statuses have no outgoing edge.
    pub open spec fn terminal(self) -> bool {
        self is Completed || self is Resolved || self is Cancelled || self is Expired
            || self is Rejected
    }

    /// The edges of the lifecycle graph.
    pub open spec fn allows(self, target: TaskStatus) -> bool {
        match self {
            TaskStatus::Draft => target is PendingReview,
            TaskStatus::PendingReview => target is Published || target is Rejected,
            TaskStatus::Published => target is Assigned || target is Cancelled || target is Expired,
            TaskStatus::Assigned => target is InProgress || target is Cancelled,
            TaskStatus::InProgress => target is Submitted,
            TaskStatus::Submitted => target is Completed || target is Disputed,
            TaskStatus::Disputed => target is Resolved,
            TaskStatus::Completed
            | TaskStatus::Resolved
            | TaskStatus::Cancelled
            | TaskStatus::Expired
            | TaskStatus::Rejected => false,
        }
    }

    pub fn as_str(&self) -> (s: &'static str)
        ensures
            s@ == self.name(),
    {
        match self {
            TaskStatus::Draft => "draft",
            TaskStatus::PendingReview => "pending_review",
            TaskStatus::Published => "published",
            TaskStatus::Assigned => "assigned",
            TaskStatus::InProgress => "in_progress",
            TaskStatus::Submitted => "submitted",
            TaskStatus::Completed => "completed",
            TaskStatus::Disputed => "disputed",
            TaskStatus::Resolved => "resolved",
            TaskStatus::Cancelled => "cancelled",
            TaskStatus::Expired => "expired",
            TaskStatus::Rejected => "rejected",
        }
    }

    /// Reads a stored name back. An unknown name gives `None`; no status is
    /// ever substituted for it.
    pub fn from_str(s: &str) -> (status: Option<TaskStatus>)
        ensures
            status == TaskStatus::parse(s@),
    {
        if str_eq(s, "draft") {
            Some(TaskStatus::Draft)
        } else if str_eq(s, "pending_review") {
            Some(TaskStatus::PendingReview)
        } else if str_eq(s, "published") {
            Some(TaskStatus::Published)
        } else if str_eq(s, "assigned") {
            Some(TaskStatus::Assigned)
        } else if str_eq(s, "in_progress") {
            Some(TaskStatus::InProgress)
        } else if str_eq(s, "submitted") {
            Some(TaskStatus::Submitted)
        } else if str_eq(s, "completed") {
            Some(TaskStatus::Completed)
        } else if str_eq(s, "disputed") {
            Some(TaskStatus::Disputed)
        } else if str_eq(s, "resolved") {
            Some(TaskStatus::Resolved)
        } else if str_eq(s, "cancelled") {
            Some(TaskStatus::Cancelled)
        } else if str_eq(s, "expired") {
            Some(TaskStatus::Expired)
        } else if str_eq(s, "rejected") {
            Some(TaskStatus::Rejected)
        } else {
            None
        }
    }

    /// Is this a terminal state?
    pub fn is_terminal(&self) -> (t: bool)
        ensures
            t == self.terminal(),
    {
        match self {
            TaskStatus::Completed
            | TaskStatus::Resolved
            | TaskStatus::Cancelled
            | TaskStatus::Expired
            | TaskStatus::Rejected => true,
            _ => false,
        }
    }

    /// Validates a state transition: the target when the edge exists, and
    /// otherwise the refused pair. This is the single source of truth for
    /// allowed transitions; it knows nothing of time or of who is asking.
    pub fn transition_to(self, target: TaskStatus) -> (r: Result<TaskStatus, InvalidTransition>)
        ensures
            self.allows(target) ==> r == Ok::<TaskStatus, InvalidTransition>(target),
            !self.allows(target) ==> r == Err::<TaskStatus, InvalidTransition>(
                InvalidTransition { from: self, to: target },
            ),
    {
        let allowed = match self {
            TaskStatus::Draft => matches!(target, TaskStatus::PendingReview),
            TaskStatus::PendingReview => matches!(
                target,
                TaskStatus::Published | TaskStatus::Rejected
            ),
            TaskStatus::Published => matches!(
                target,
                TaskStatus::Assigned | TaskStatus::Cancelled | TaskStatus::Expired
            ),
            TaskStatus::Assigned => matches!(target, TaskStatus::InProgress | TaskStatus::Cancelled),
            TaskStatus::InProgress => matches!(target, TaskStatus::Submitted),
            TaskStatus::Submitted => matches!(target, TaskStatus::Completed | TaskStatus::Disputed),
            TaskStatus::Disputed => matches!(target, TaskStatus::Resolved),
            TaskStatus::Completed
            | TaskStatus::Resolved
            | TaskStatus::Cancelled
            | TaskStatus::Expired
            | TaskStatus::Rejected => false,
        };
        if allowed {
            Ok(target)
        } else {
            Err(InvalidTransition { from: self, to: target })
        }
    }
}

/// Location type for tasks.
#[derive(Debug, Clone, Copy, PartialEq, Eq, Structural)]
pub enum LocationType {
    InPerson,
    Remote,
}

impl LocationType {
    pub open spec fn name(self) -> Seq<char> {
        match self {
            LocationType::InPerson => "in_person"@,
            LocationType::Remote => "remote"@,
        }
    }

    pub open spec fn parse(s: Seq<char>) -> Option<LocationType> {
        if s == "in_person"@ {
            Some(LocationType::InPerson)
        } else if s == "remote"@ {
            Some(LocationType::Remote)
        } else {
            None
        }
    }

    pub fn as_str(&self) -> (s: &'static str)
        ensures
            s@ == self.name(),
    {
        match self {
            LocationType::InPerson => "in_person",
            LocationType::Remote => "remote",
        }
    }

    pub fn from_str(s: &str) -> (location: Option<LocationType>)
        ensures
            location == LocationType::parse(s@),
    {
        if str_eq(s, "in_person") {
            Some(LocationType::InPerson)
        } else if str_eq(s, "remote") {
            Some(LocationType::Remote)
        } else {
            None
        }
    }
}

/// Every location type survives being written as its name and read back.
pub proof fn lemma_location_round_trip(location: LocationType)
    ensures
        LocationType::parse(location.name()) == Some(location),
{
    reveal_strlit("in_person");
    reveal_strlit("remote");
    assert("in_person"@.len() != "remote"@.len());
}

/// Makes the characters of every status name known to the solver.
proof fn reveal_status_names()
    ensures
        "draft"@.len() == 5 && "draft"@[0] == 'd' && "draft"@[1] == 'r',
        "pending_review"@.len() == 14,
        "published"@.len() == 9 && "published"@[0] == 'p',
        "assigned"@.len() == 8 && "assigned"@[0] == 'a',
        "in_progress"@.len() == 11,
        "submitted"@.len() == 9 && "submitted"@[0] == 's',
        "completed"@.len() == 9 && "completed"@[0] == 'c',
        "disputed"@.len() == 8 && "disputed"@[0] == 'd',
        "resolved"@.len() == 8 && "resolved"@[0] == 'r' && "resolved"@[2] == 's',
        "cancelled"@.len() == 9 && "cancelled"@[0] == 'c' && "cancelled"@[1] == 'a',
        "expired"@.len() == 7,
        "rejected"@.len() == 8 && "rejected"@[0] == 'r' && "rejected"@[2] == 'j',
        "completed"@[1] == 'o',
{
    reveal_strlit("draft");
    reveal_strlit("pending_review");
    reveal_strlit("published");
    reveal_strlit("assigned");
    reveal_strlit("in_progress");
    reveal_strlit("submitted");
    reveal_strlit("completed");
    reveal_strlit("disputed");
    reveal_strlit("resolved");
    reveal_strlit("cancelled");
    reveal_strlit("expired");
    reveal_strlit("rejected");
}

/// A terminal status has no outgoing edge: whatever the target, the
/// transition is refused.
pub proof fn lemma_terminal_has_no_exit(from: TaskStatus, to: TaskStatus)
    requires
        from.terminal(),
    ensures
        !from.allows(to),
{
}

/// A status that is not terminal has at least one outgoing edge, so the
/// terminal statuses are exactly the dead ends of the graph.
pub proof fn lemma_live_status_has_exit(from: TaskStatus)
    requires
        !from.terminal(),
    ensures
        exists|to: TaskStatus| from.allows(to),
{
    match from {
        TaskStatus::Draft => assert(from.allows(TaskStatus::PendingReview)),
        TaskStatus::PendingReview => assert(from.allows(TaskStatus::Published)),
        TaskStatus::Published => assert(from.allows(TaskStatus::Assigned)),
        TaskStatus::Assigned => assert(from.allows(TaskStatus::InProgress)),
        TaskStatus::InProgress => assert(from.allows(TaskStatus::Submitted)),
        TaskStatus::Submitted => assert(from.allows(TaskStatus::Completed)),
        _ => assert(from.allows(TaskStatus::Resolved)),
    }
}

/// No edge leads back to where it started, and none leads to `Draft`.
pub proof fn lemma_edges_move_forward(from: TaskStatus, to: TaskStatus)
    requires
        from.allows(to),
    ensures
        from != to,
        !(to is Draft),
{
}

/// Every status survives being written as its name and read back.
pub proof fn lemma_status_round_trip(status: TaskStatus)
    ensures
        TaskStatus::parse(status.name()) == Some(status),
{
    reveal_status_names();
}

/// Reading gives a status only for that status's own name: any other text,
/// including a name in another case, reads as `None`.
pub proof fn lemma_parse_accepts_only_names(text: Seq<char>)
    ensures
        match TaskStatus::parse(text) {
            Some(status) => text == status.name(),
            None => forall|status: TaskStatus| status.name() != text,
        },
{
    if TaskStatus::parse(text) is None {
        assert forall|status: TaskStatus| status.name() != text by {
            if status.name() == text {
                lemma_status_round_trip(status);
            }
        }
    }
}

impl InvalidTransition {
    /// The text shown to a caller for this refusal.
    pub open spec fn message_text(self) -> Seq<char> {
        "Cannot transition from "@ + self.from.name() + " to "@ + self.to.name()
    }

    pub fn message(&self) -> (m: String)
        ensures
            m@ == self.message_text(),
    {
        let mut m = String::from_str("Cannot transition from ");
        m.append(self.from.as_str());
        m.append(" to ");
        m.append(self.to.as_str());
        m
    }
}

} // verus!
