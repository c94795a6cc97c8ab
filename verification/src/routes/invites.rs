//! Invites: how many an attestor may create, and when one is still good.

use vstd::prelude::*;
use vstd::pervasive::unreached;
use vstd::string::{StrSliceExecFns, StringExecFns};
use crate::crypto::random_index;
use crate::errors::{failure, AppError, ErrorKind, Failure};
use crate::models::invite::CreateInviteRequest;

verus! {

/// Most invites that one request can create.
pub const MAX_INVITES_PER_REQUEST: i32 = 50;

/// Days until an invite expires.
pub const INVITE_VALID_DAYS: i64 = 30;

/// The number of invites that a request creates: as many as it asks for, one
/// where it does not say, and never more than 50.
pub open spec fn invite_count(requested: Option<i32>) -> int {
    match requested {
        Some(n) => if n > 50 {
            50
        } else {
            n as int
        },
        None => 1,
    }
}

pub fn requested_invites(request: &CreateInviteRequest) -> (count: i32)
    ensures
        count == invite_count(request.count),
{
    match request.count {
        Some(n) => if n > MAX_INVITES_PER_REQUEST {
            MAX_INVITES_PER_REQUEST
        } else {
            n
        },
        None => 1,
    }
}

/// Refuses a request that would take the attestor past their quota.
pub fn check_quota(used: i64, count: i32, quota: i32) -> (r: Result<(), AppError>)
    ensures
        match r {
            Ok(_) => used + count <= quota,
            Err(e) => used + count > quota && e@ == (Failure {
                kind: ErrorKind::BadRequest,
                reason: "Invite quota exceeded"@,
            }),
        },
{
    if used as i128 + count as i128 > quota as i128 {
        return Err(failure(ErrorKind::BadRequest, "Invite quota exceeded"));
    }
    Ok(())
}

/// An invite is good while nobody has claimed it and it has not expired.
pub fn invite_is_valid(claimed: bool, expires_at: i64, now: i64) -> (valid: bool)
    ensures
        valid == (!claimed && expires_at > now),
{
    !claimed && expires_at > now
}

/// The characters of invite codes: capital letters and digits without the
/// look-alikes `I`, `O`, `0` and `1`.
pub const INVITE_ALPHABET: &'static str = "ABCDEFGHJKLMNPQRSTUVWXYZ23456789";

/// The number of characters of an invite code.
pub const INVITE_CODE_LENGTH: usize = 8;

/// The code that a sequence of picks from the alphabet spells.
pub open spec fn code_of(picks: Seq<usize>) -> Seq<char> {
    Seq::new(picks.len(), |i: int| INVITE_ALPHABET@[picks[i] as int])
}

/// Whether every pick points into the alphabet.
pub open spec fn picks_in_range(picks: Seq<usize>) -> bool {
    forall|i: int| 0 <= i < picks.len() ==> #[trigger] picks[i] < 32
}

/// Spells the code of a sequence of picks; `None` where a pick points
/// outside the alphabet.
pub fn invite_code_from(picks: &Vec<usize>) -> (r: Option<String>)
    ensures
        r is Some <==> picks_in_range(picks@),
        r matches Some(code) ==> code@ == code_of(picks@),
{
    proof {
        reveal_strlit("ABCDEFGHJKLMNPQRSTUVWXYZ23456789");
    }
    let mut code = String::new();
    let mut i: usize = 0;
    while i < picks.len()
        invariant
            i <= picks.len(),
            INVITE_ALPHABET@.len() == 32,
            forall|k: int| 0 <= k < i ==> #[trigger] picks[k] < 32,
            code@ == code_of(picks@.subrange(0, i as int)),
        decreases picks.len() - i,
    {
        let pick = picks[i];
        if pick >= 32 {
            return None;
        }
        code.append(INVITE_ALPHABET.substring_char(pick, pick + 1));
        i += 1;
        assert(code@ =~= code_of(picks@.subrange(0, i as int)));
    }
    assert(picks@.subrange(0, i as int) =~= picks@);
    Some(code)
}

/// Generates an invite code: eight characters, each picked at random from
/// the alphabet.
pub fn generate_invite_code() -> (code: String)
    ensures
        code@.len() == 8,
        exists|picks: Seq<usize>| picks.len() == 8 && picks_in_range(picks) && code@ == code_of(picks),
{
    let mut picks: Vec<usize> = Vec::new();
    let mut i: usize = 0;
    while i < INVITE_CODE_LENGTH
        invariant
            i <= INVITE_CODE_LENGTH,
            picks.len() == i,
            picks_in_range(picks@),
        decreases INVITE_CODE_LENGTH - i,
    {
        picks.push(random_index(32));
        i += 1;
    }
    match invite_code_from(&picks) {
        Some(code) => code,
        None => unreached(),
    }
}

} // verus!
