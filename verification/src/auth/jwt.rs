//! Refresh tokens: how one is made and what is stored of it.

use vstd::prelude::*;
use crate::crypto::{hex_encode, hex_text, random_32_bytes, sha256, sha256_digest};

verus! {

/// A refresh token made of the given bytes: their hexadecimal text.
pub fn refresh_token_from(bytes: &[u8]) -> (token: String)
    ensures
        token@ == hex_text(bytes@),
{
    hex_encode(bytes)
}

/// Generate a random refresh token: 32 random bytes as 64 hexadecimal
/// digits.
pub fn generate_refresh_token() -> (token: String)
    ensures
        token@.len() == 64,
        exists|bytes: Seq<u8>| bytes.len() == 32 && token@ == hex_text(bytes),
{
    let bytes = random_32_bytes();
    let token = refresh_token_from(bytes.as_slice());
    assert(bytes@.len() == 32 && token@ == hex_text(bytes@));
    token
}

/// Hash a refresh token for storage: the SHA-256 digest of its bytes, as
/// hexadecimal text.
pub fn hash_refresh_token(token: &str) -> (stored: String)
    ensures
        stored@ == hex_text(sha256_digest(vstd::utf8::encode_utf8(token@))),
{
    let digest = sha256(token.as_bytes());
    hex_encode(digest.as_slice())
}

} // verus!
