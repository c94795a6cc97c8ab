//! Messages between the parties of a task.

use vstd::prelude::*;

verus! {

#[derive(Debug, Clone, PartialEq, Eq)]
pub struct CreateMessageRequest {
    pub body: String,
}

} // verus!
