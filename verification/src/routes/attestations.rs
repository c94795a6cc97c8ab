//! Attestations: confirming a pending one.

use vstd::prelude::*;
use vstd::string::StringExecFns;
use crate::errors::{AppError, ErrorKind, Failure};
use crate::text::str_eq;

verus! {

/// Only a pending attestation can be confirmed; of any other the attestor is
/// told what it already is.
pub fn check_confirmation(status: &str) -> (r: Result<(), AppError>)
    ensures
        match r {
            Ok(_) => status@ == "pending"@,
            Err(e) => status@ != "pending"@ && e@ == (Failure {
                kind: ErrorKind::BadRequest,
                reason: "Attestation is already "@ + status@,
            }),
        },
{
    if !str_eq(status, "pending") {
        let mut reason = String::from_str("Attestation is already ");
        reason.append(status);
        return Err(AppError::BadRequest(reason));
    }
    Ok(())
}

} // verus!
