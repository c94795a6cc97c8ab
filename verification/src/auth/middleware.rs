//! The authenticated user and the checks on the way in.

use vstd::prelude::*;
use vstd::string::{StrSliceExecFns, StringExecFns};
use crate::errors::{failure, AppError, ErrorKind, Failure};
use crate::text::str_eq;

verus! {

/// Authenticated user, as the access token describes them.
#[derive(Debug, Clone, Copy, PartialEq, Eq, Structural)]
pub struct AuthUser {
    pub user_id: u128,
    pub is_admin: bool,
    pub trust_level: i16,
}

/// Admin-only guard: an [`AuthUser`] that was checked to be an administrator.
#[derive(Debug, Clone, Copy, PartialEq, Eq, Structural)]
pub struct AdminUser(pub AuthUser);

impl AdminUser {
    /// Lets administrators through and refuses everyone else.
    pub fn from_auth_user(user: AuthUser) -> (r: Result<AdminUser, AppError>)
        ensures
            match r {
                Ok(admin) => user.is_admin && admin.0 == user,
                Err(e) => !user.is_admin && e@ == (Failure {
                    kind: ErrorKind::Forbidden,
                    reason: "Admin access required"@,
                }),
            },
    {
        if !user.is_admin {
            return Err(failure(ErrorKind::Forbidden, "Admin access required"));
        }
        Ok(AdminUser(user))
    }
}

/// Whether an `Authorization` header has the form `Bearer <token>`.
pub open spec fn is_bearer(header: Seq<char>) -> bool {
    header.len() >= 7 && header.subrange(0, 7) == "Bearer "@
}

/// Why a request carries no usable token, if it does not.
pub open spec fn bearer_refusal(header: Option<Seq<char>>) -> Option<Failure> {
    match header {
        None => Some(
            Failure { kind: ErrorKind::Unauthorized, reason: "Missing Authorization header"@ },
        ),
        Some(header) => if !is_bearer(header) {
            Some(
                Failure {
                    kind: ErrorKind::Unauthorized,
                    reason: "Invalid Authorization header format"@,
                },
            )
        } else {
            None
        },
    }
}

/// Extract the bearer token from the `Authorization` header: what follows
/// `Bearer `, blank included, to the end of the header.
pub fn extract_bearer_token(header: Option<&str>) -> (r: Result<String, AppError>)
    ensures
        match r {
            Ok(token) => header matches Some(h) && is_bearer(h@) && token@ == h@.subrange(
                7,
                h@.len() as int,
            ),
            Err(e) => bearer_refusal(
                match header {
                    Some(h) => Some(h@),
                    None => None,
                },
            ) == Some(e@),
        },
{
    let header = match header {
        Some(header) => header,
        None => {
            return Err(failure(ErrorKind::Unauthorized, "Missing Authorization header"));
        },
    };
    let n = header.unicode_len();
    if n < 7 || !str_eq(header.substring_char(0, 7), "Bearer ") {
        return Err(failure(ErrorKind::Unauthorized, "Invalid Authorization header format"));
    }
    Ok(String::from_str(header.substring_char(7, n)))
}

} // verus!
