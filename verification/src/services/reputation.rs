//! Recomputing a user's reputation from what storage counts.

use vstd::prelude::*;
use crate::models::reputation::{ReputationCounts, ReputationSnapshot};

verus! {

/// Recompute the reputation summary of a user from the counts of their
/// tasks and reviews. `None` where the counts do not fit together, in which
/// case nothing should be stored.
pub fn recompute_reputation(counts: &ReputationCounts) -> (r: Option<ReputationSnapshot>)
    ensures
        r is Some <==> counts.wf(),
        r matches Some(snapshot) ==> snapshot == counts.summary() && snapshot.wf(),
{
    if counts.is_consistent() {
        Some(counts.summarize())
    } else {
        None
    }
}

} // verus!
