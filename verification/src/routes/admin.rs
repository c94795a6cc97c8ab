//! Administrators: manual moderation, dispute resolution, the audit log.

use vstd::prelude::*;
use vstd::string::StringExecFns;
use crate::routes::tasks::{page_number, page_size, paginate, Page};
use crate::services::lifecycle::{LifecycleRequest, Resolution};

verus! {

/// Reject flagged content.
#[derive(Debug, Clone, PartialEq, Eq)]
pub struct RejectRequest {
    pub reason: String,
}

/// Resolve a dispute. Either release payment to doer or refund to requester.
#[derive(Debug, Clone, PartialEq, Eq)]
pub struct ResolveDisputeRequest {
    /// "release" (pay doer) or "refund" (refund requester)
    pub resolution: String,
    pub notes: Option<String>,
}

impl RejectRequest {
    /// The lifecycle request that this rejection stands for.
    pub fn to_request(&self) -> (r: LifecycleRequest)
        ensures
            r matches LifecycleRequest::ModerationReject { reason } && reason@ == self.reason@,
    {
        LifecycleRequest::ModerationReject { reason: self.reason.clone() }
    }
}

impl ResolveDisputeRequest {
    /// The lifecycle request that this resolution stands for.
    pub fn to_request(&self) -> (r: LifecycleRequest)
        ensures
            r == (LifecycleRequest::Resolve { resolution: Resolution::parse(self.resolution@) }),
    {
        LifecycleRequest::Resolve { resolution: Resolution::from_str(self.resolution.as_str()) }
    }

    /// What the administrator is told once the dispute is resolved.
    pub fn confirmation(&self) -> (message: String)
        ensures
            message@ == "Dispute resolved: "@ + self.resolution@,
    {
        let mut message = String::from_str("Dispute resolved: ");
        message.append(self.resolution.as_str());
        message
    }
}

/// Page size of the audit log: 50 unless asked otherwise, at most 200.
pub fn paginate_audit_log(page: Option<i64>, per_page: Option<i64>) -> (r: Option<Page>)
    ensures
        ({
            let offset = (page_number(page) - 1) * page_size(per_page, 50, 200);
            match r {
                Some(p) => p.page == page_number(page) && p.per_page == page_size(per_page, 50, 200)
                    && p.offset == offset,
                None => offset < i64::MIN || offset > i64::MAX,
            }
        }),
{
    paginate(page, per_page, 50, 200)
}

} // verus!
