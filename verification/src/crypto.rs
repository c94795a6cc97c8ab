//! Digests, message authentication, hex text and randomness.
//!
//! The `sha2`, `hmac`, `hex` and `rand` crates do the work. What a digest or
//! a tag is on given bytes is not restated here: the contracts below name
//! those results, and the rest of the library reasons over the names. Of a
//! random value only its range is known.

use vstd::prelude::*;
use hmac::Mac;
use rand::Rng;
use sha2::Digest;

verus! {

/// The SHA-256 digest of a message.
pub uninterp spec fn sha256_digest(message: Seq<u8>) -> Seq<u8>;

/// The HMAC-SHA256 tag of a message under a key; `None` for a key that the
/// construction does not take.
pub uninterp spec fn hmac_sha256_tag(key: Seq<u8>, message: Seq<u8>) -> Option<Seq<u8>>;

/// The character of a hexadecimal digit, in lower case.
pub open spec fn hex_digit(digit: nat) -> char
    recommends
        digit < 16,
{
    if digit < 10 {
        crate::text::digit_char(digit)
    } else if digit == 10 {
        'a'
    } else if digit == 11 {
        'b'
    } else if digit == 12 {
        'c'
    } else if digit == 13 {
        'd'
    } else if digit == 14 {
        'e'
    } else {
        'f'
    }
}

/// Bytes as hexadecimal text: two lower-case digits per byte, the high half
/// first.
pub open spec fn hex_text(bytes: Seq<u8>) -> Seq<char> {
    Seq::new(
        2 * bytes.len(),
        |i: int|
            if i % 2 == 0 {
                hex_digit(bytes[i / 2] as nat / 16)
            } else {
                hex_digit(bytes[i / 2] as nat % 16)
            },
    )
}

/// Calls `Sha256::digest`. Claims that the bytes returned are the digest
/// that [`sha256_digest`] names.
#[verifier::external_body]
pub(crate) fn sha256(message: &[u8]) -> (digest: Vec<u8>)
    ensures
        digest@ == sha256_digest(message@),
{
    sha2::Sha256::digest(message).to_vec()
}

/// Keys `Hmac<Sha256>` with `new_from_slice`, feeds it the message and
/// finalizes. Claims that the outcome is the one that [`hmac_sha256_tag`]
/// names.
#[verifier::external_body]
pub(crate) fn hmac_sha256(key: &[u8], message: &[u8]) -> (tag: Option<Vec<u8>>)
    ensures
        match tag {
            Some(bytes) => hmac_sha256_tag(key@, message@) == Some(bytes@),
            None => hmac_sha256_tag(key@, message@) is None,
        },
{
    match hmac::Hmac::<sha2::Sha256>::new_from_slice(key) {
        Ok(mut mac) => {
            mac.update(message);
            Some(mac.finalize().into_bytes().to_vec())
        },
        Err(_) => None,
    }
}

/// Calls `hex::encode`. Claims that it writes each byte as two lower-case
/// hexadecimal digits, the high half first.
#[verifier::external_body]
pub(crate) fn hex_encode(bytes: &[u8]) -> (text: String)
    ensures
        text@ == hex_text(bytes@),
{
    hex::encode(bytes)
}

/// Calls `Rng::random_range` on the thread's generator. Claims no more than
/// that the value lies below the bound.
#[verifier::external_body]
pub(crate) fn random_index(bound: usize) -> (index: usize)
    requires
        bound > 0,
    ensures
        index < bound,
{
    rand::rng().random_range(0..bound)
}

/// Calls `Rng::random` on the thread's generator for 32 bytes. Claims no
/// more than their number.
#[verifier::external_body]
pub(crate) fn random_32_bytes() -> (bytes: Vec<u8>)
    ensures
        bytes.len() == 32,
{
    rand::rng().random::<[u8; 32]>().to_vec()
}

} // verus!
