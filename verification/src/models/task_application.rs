//! Applications of doers to tasks.

use vstd::prelude::*;

verus! {

#[derive(Debug, Clone, PartialEq, Eq)]
pub struct CreateApplicationRequest {
    pub message: Option<String>,
}

} // verus!
