//! The user's own profile and payout onboarding.

use vstd::prelude::*;
use vstd::string::StringExecFns;

verus! {

#[derive(Debug, Clone, PartialEq, Eq)]
pub struct UpdateProfileRequest {
    pub legal_first_name: Option<String>,
    pub legal_last_name: Option<String>,
    pub phone: Option<String>,
}

#[derive(Debug, Clone, PartialEq, Eq)]
pub struct StripeConnectResponse {
    pub url: String,
}

/// The editable part of a profile.
#[derive(Debug, Clone, PartialEq, Eq)]
pub struct ProfileFields {
    pub legal_first_name: String,
    pub legal_last_name: String,
    pub phone: String,
}

/// A field after an edit: the new value where one is given.
pub open spec fn edited(current: Seq<char>, change: Option<String>) -> Seq<char> {
    match change {
        Some(value) => value@,
        None => current,
    }
}

fn edit(current: String, change: Option<String>) -> (r: String)
    ensures
        r@ == edited(current@, change),
{
    match change {
        Some(value) => value,
        None => current,
    }
}

impl UpdateProfileRequest {
    /// The profile after this edit: every field that the request names is
    /// replaced, and the others stay.
    pub fn apply(self, current: ProfileFields) -> (r: ProfileFields)
        ensures
            r.legal_first_name@ == edited(current.legal_first_name@, self.legal_first_name),
            r.legal_last_name@ == edited(current.legal_last_name@, self.legal_last_name),
            r.phone@ == edited(current.phone@, self.phone),
    {
        ProfileFields {
            legal_first_name: edit(current.legal_first_name, self.legal_first_name),
            legal_last_name: edit(current.legal_last_name, self.legal_last_name),
            phone: edit(current.phone, self.phone),
        }
    }
}

/// Where the payout onboarding sends the user back to.
pub fn connect_return_url(base_url: &str) -> (url: String)
    ensures
        url@ == base_url@ + "/stripe/return"@,
{
    let mut url = String::from_str(base_url);
    url.append("/stripe/return");
    url
}

/// Where the payout onboarding sends the user to start over.
pub fn connect_refresh_url(base_url: &str) -> (url: String)
    ensures
        url@ == base_url@ + "/stripe/refresh"@,
{
    let mut url = String::from_str(base_url);
    url.append("/stripe/refresh");
    url
}

} // verus!
