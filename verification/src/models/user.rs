//! User status and the limits that each trust level carries.
//!
//! Trust levels are computed from actual user data, not manually assigned
//! (except that level 3 also needs an administrator's approval):
//!
//! | Level | Name | Requirements |
//! |-------|------|-------------|
//! | 0 | Verified | Registration complete |
//! | 1 | Established | 5+ completed, 0 disputes lost, age >= 30d |
//! | 2 | Trusted | 20+ completed, 0 disputes lost, age >= 90d, >= 90% positive |
//! | 3 | Pillar | 50+ completed, age >= 180d, >= 95% positive, admin-reviewed |

use vstd::prelude::*;
use crate::text::str_eq;

verus! {

#[derive(Debug, Clone, Copy, PartialEq, Eq, Structural, PartialOrd, Ord)]
pub enum UserStatus {
    Active,
    Suspended,
    Banned,
}

impl UserStatus {
    pub open spec fn name(self) -> Seq<char> {
        match self {
            UserStatus::Active => "active"@,
            UserStatus::Suspended => "suspended"@,
            UserStatus::Banned => "banned"@,
        }
    }

    pub open spec fn parse(s: Seq<char>) -> Option<UserStatus> {
        if s == "active"@ {
            Some(UserStatus::Active)
        } else if s == "suspended"@ {
            Some(UserStatus::Suspended)
        } else if s == "banned"@ {
            Some(UserStatus::Banned)
        } else {
            None
        }
    }

    pub fn as_str(&self) -> (s: &'static str)
        ensures
            s@ == self.name(),
    {
        match self {
            UserStatus::Active => "active",
            UserStatus::Suspended => "suspended",
            UserStatus::Banned => "banned",
        }
    }

    pub fn from_str(s: &str) -> (status: Option<UserStatus>)
        ensures
            status == UserStatus::parse(s@),
    {
        if str_eq(s, "active") {
            Some(UserStatus::Active)
        } else if str_eq(s, "suspended") {
            Some(UserStatus::Suspended)
        } else if str_eq(s, "banned") {
            Some(UserStatus::Banned)
        } else {
            None
        }
    }
}

/// Every user status survives being written as its name and read back.
pub proof fn lemma_user_status_round_trip(status: UserStatus)
    ensures
        UserStatus::parse(status.name()) == Some(status),
{
    reveal_strlit("active");
    reveal_strlit("suspended");
    reveal_strlit("banned");
    assert("active"@.len() == 6 && "suspended"@.len() == 9 && "banned"@.len() == 6);
    assert("active"@[0] == 'a' && "banned"@[0] == 'b');
}

/// The highest trust level.
pub const MAX_TRUST_LEVEL: i16 = 3;

/// Whether a number is one of the four trust levels.
pub open spec fn is_trust_level(level: int) -> bool {
    0 <= level <= 3
}

/// Maximum task value in cents at a trust level; 0 for a number that is no
/// level.
pub open spec fn max_task_value(level: int) -> int {
    if level == 0 {
        10_000
    } else if level == 1 {
        50_000
    } else if level == 2 {
        200_000
    } else if level == 3 {
        500_000
    } else {
        0
    }
}

/// Maximum concurrent tasks as doer at a trust level; 0 for a number that is
/// no level.
pub open spec fn max_concurrent(level: int) -> int {
    if level == 0 {
        2
    } else if level == 1 {
        5
    } else if level == 2 {
        10
    } else if level == 3 {
        20
    } else {
        0
    }
}

/// Maximum open tasks posted at a trust level; `None` where posting is not
/// permitted.
pub open spec fn max_posted(level: int) -> Option<int> {
    if level == 1 {
        Some(2)
    } else if level == 2 {
        Some(10)
    } else if level == 3 {
        Some(25)
    } else {
        None
    }
}

/// The fixed limits of each trust level. They are looked up, never derived.
pub struct TrustLevelRequirements;

impl TrustLevelRequirements {
    /// Maximum task value in cents for a given trust level.
    pub fn max_task_value_cents(level: i16) -> (cents: i64)
        ensures
            cents == max_task_value(level as int),
    {
        match level {
            0 => 10_000,  // $100
            1 => 50_000,  // $500
            2 => 200_000,  // $2,000
            3 => 500_000,  // $5,000
            _ => 0,
        }
    }

    /// Maximum concurrent tasks as doer.
    pub fn max_concurrent_doer(level: i16) -> (tasks: i32)
        ensures
            tasks == max_concurrent(level as int),
    {
        match level {
            0 => 2,
            1 => 5,
            2 => 10,
            3 => 20,
            _ => 0,
        }
    }

    /// Maximum active tasks posted as requester. Level 0 cannot post.
    pub fn max_active_posted(level: i16) -> (tasks: Option<i32>)
        ensures
            match tasks {
                Some(n) => max_posted(level as int) == Some(n as int),
                None => max_posted(level as int) is None,
            },
    {
        match level {
            0 => None,  // Cannot post
            1 => Some(2),
            2 => Some(10),
            3 => Some(25),
            _ => None,
        }
    }

    /// Can this trust level post tasks?
    pub fn can_post_tasks(level: i16) -> (allowed: bool)
        ensures
            allowed == (level >= 1),
    {
        level >= 1
    }

    /// Can this trust level apply for tasks?
    pub fn can_apply_for_tasks(level: i16) -> (allowed: bool)
        ensures
            allowed == (level >= 0),
    {
        level >= 0
    }
}

/// Privilege grows with the level: a higher level never has a lower limit,
/// and a level that may post stays able to post further up.
pub proof fn lemma_limits_grow_with_level(low: int, high: int)
    requires
        is_trust_level(low),
        is_trust_level(high),
        low <= high,
    ensures
        max_task_value(low) <= max_task_value(high),
        max_concurrent(low) <= max_concurrent(high),
        max_posted(low) is Some ==> max_posted(high) is Some && max_posted(low)->Some_0
            <= max_posted(high)->Some_0,
{
}

/// Among the trust levels, posting is permitted exactly where a posting
/// limit exists, which is everywhere but level 0.
pub proof fn lemma_posting_needs_level_one(level: int)
    requires
        is_trust_level(level),
    ensures
        max_posted(level) is Some <==> level >= 1,
{
}

} // verus!
