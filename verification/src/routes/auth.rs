//! Registration, verification codes and sign-in, as far as they are rules.

use vstd::prelude::*;
use vstd::string::{StrSliceExecFns, StringExecFns};
use crate::errors::{failure, AppError, ErrorKind, Failure};
use vstd::utf8::encode_utf8;
use crate::text::str_eq;

verus! {

#[derive(Debug, Clone, PartialEq, Eq)]
pub struct RegisterRequest {
    pub invite_code: String,
    pub legal_first_name: String,
    pub legal_last_name: String,
    pub email: String,
    pub phone: String,
    pub password: String,
}

#[derive(Debug, Clone, PartialEq, Eq)]
pub struct LoginRequest {
    pub email: String,
    pub password: String,
}

#[derive(Debug, Clone, PartialEq, Eq)]
pub struct RefreshRequest {
    pub refresh_token: String,
}

/// Shortest password, in bytes of UTF-8.
pub const MIN_PASSWORD_BYTES: usize = 8;

/// Length of a verification code.
pub const VERIFICATION_CODE_LENGTH: usize = 6;

/// What storage knows of the invite that a registration names: an unclaimed,
/// unexpired invite, and the email address it was issued for, if any.
#[derive(Debug, Clone, PartialEq, Eq)]
pub struct InviteFacts {
    pub target_email: Option<String>,
}

/// Why a registration is refused, if it is. The checks run in this order:
/// the invite is good, it was issued for this email address or for anyone,
/// email and phone are new, and the password is long enough.
pub open spec fn registration_refusal(
    request: RegisterRequest,
    invite: Option<InviteFacts>,
    email_taken: bool,
    phone_taken: bool,
) -> Option<Failure> {
    match invite {
        None => Some(
            Failure { kind: ErrorKind::BadRequest, reason: "Invalid or expired invite code"@ },
        ),
        Some(invite) => if invite.target_email matches Some(target) && target@ != request.email@ {
            Some(
                Failure {
                    kind: ErrorKind::BadRequest,
                    reason: "This invite was issued for a different email address"@,
                },
            )
        } else if email_taken {
            Some(Failure { kind: ErrorKind::Conflict, reason: "Email already registered"@ })
        } else if phone_taken {
            Some(Failure { kind: ErrorKind::Conflict, reason: "Phone already registered"@ })
        } else if encode_utf8(request.password@).len() < 8 {
            Some(
                Failure {
                    kind: ErrorKind::BadRequest,
                    reason: "Password must be at least 8 characters"@,
                },
            )
        } else {
            None
        },
    }
}

/// Checks a registration against the invite it names and against the
/// accounts that exist.
pub fn check_registration(
    request: &RegisterRequest,
    invite: Option<&InviteFacts>,
    email_taken: bool,
    phone_taken: bool,
) -> (r: Result<(), AppError>)
    ensures
        match r {
            Ok(_) => invite is Some && registration_refusal(
                *request,
                Some(*invite.unwrap()),
                email_taken,
                phone_taken,
            ) is None,
            Err(e) => registration_refusal(
                *request,
                match invite {
                    Some(found) => Some(*found),
                    None => None,
                },
                email_taken,
                phone_taken,
            ) == Some(e@),
        },
{
    let invite = match invite {
        Some(invite) => invite,
        None => {
            return Err(failure(ErrorKind::BadRequest, "Invalid or expired invite code"));
        },
    };
    match &invite.target_email {
        Some(target) => {
            if !str_eq(target.as_str(), request.email.as_str()) {
                return Err(
                    failure(
                        ErrorKind::BadRequest,
                        "This invite was issued for a different email address",
                    ),
                );
            }
        },
        None => {},
    }
    if email_taken {
        return Err(failure(ErrorKind::Conflict, "Email already registered"));
    }
    if phone_taken {
        return Err(failure(ErrorKind::Conflict, "Phone already registered"));
    }
    if request.password.as_str().as_bytes().len() < MIN_PASSWORD_BYTES {
        return Err(failure(ErrorKind::BadRequest, "Password must be at least 8 characters"));
    }
    Ok(())
}

/// Whether a character is one of the ten decimal digits.
pub open spec fn is_digit(c: char) -> bool {
    '0' <= c <= '9'
}

/// A verification code is six decimal digits.
pub open spec fn is_code(code: Seq<char>) -> bool {
    code.len() == 6 && forall|i: int| 0 <= i < code.len() ==> is_digit(#[trigger] code[i])
}

/// Whether a text has the form of a verification code.
pub fn is_verification_code(code: &str) -> (ok: bool)
    ensures
        ok == is_code(code@),
{
    let n = code.unicode_len();
    if n != VERIFICATION_CODE_LENGTH {
        return false;
    }
    let mut i: usize = 0;
    while i < n
        invariant
            i <= n,
            n == code@.len(),
            forall|k: int| 0 <= k < i ==> is_digit(#[trigger] code@[k]),
        decreases n - i,
    {
        let c = code.get_char(i);
        if !('0' <= c && c <= '9') {
            return false;
        }
        i += 1;
    }
    true
}

/// Refuses a text that has not the form of a verification code.
pub fn check_verification_code(code: &str) -> (r: Result<(), AppError>)
    ensures
        match r {
            Ok(_) => is_code(code@),
            Err(e) => !is_code(code@) && e@ == (Failure {
                kind: ErrorKind::BadRequest,
                reason: "Invalid verification code"@,
            }),
        },
{
    if !is_verification_code(code) {
        return Err(failure(ErrorKind::BadRequest, "Invalid verification code"));
    }
    Ok(())
}

/// Only an active account signs in; of any other its owner is told what it
/// is.
pub fn check_account_active(status: &str) -> (r: Result<(), AppError>)
    ensures
        match r {
            Ok(_) => status@ == "active"@,
            Err(e) => status@ != "active"@ && e@ == (Failure {
                kind: ErrorKind::Forbidden,
                reason: "Account is "@ + status@,
            }),
        },
{
    if !str_eq(status, "active") {
        let mut reason = String::from_str("Account is ");
        reason.append(status);
        return Err(AppError::Forbidden(reason));
    }
    Ok(())
}

/// When a token issued at `now` for `lifetime_secs` seconds expires; `None`
/// where that moment does not fit the integer type.
pub fn token_expiry(now: i64, lifetime_secs: i64) -> (r: Option<i64>)
    ensures
        match r {
            Some(at) => at == now + lifetime_secs,
            None => now + lifetime_secs < i64::MIN || now + lifetime_secs > i64::MAX,
        },
{
    now.checked_add(lifetime_secs)
}

} // verus!
