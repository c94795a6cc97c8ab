//! Invites that attestors hand out.

use vstd::prelude::*;

verus! {

#[derive(Debug, Clone, PartialEq, Eq)]
pub struct CreateInviteRequest {
    pub target_email: Option<String>,
    pub count: Option<i32>,
}

} // verus!
