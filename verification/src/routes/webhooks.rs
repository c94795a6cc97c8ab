//! Inbound events of the payment provider: checking their signature.
//!
//! A signature header is a list of `key=value` fields separated by commas.
//! The field `t` carries a timestamp and each field `v1` a signature: the
//! HMAC-SHA256 tag, in hexadecimal, of timestamp, a dot, and the payload,
//! under the shared secret.

use vstd::prelude::*;
use vstd::utf8::encode_utf8;
use crate::crypto::{hex_encode, hex_text, hmac_sha256, hmac_sha256_tag};
use crate::errors::{failure, AppError, ErrorKind, Failure};

verus! {

pub const COMMA: u8 = 0x2c;

pub const EQUALS: u8 = 0x3d;

pub const DOT: u8 = 0x2e;

/// The position of the first `byte` in `s` from `from` up to, but not
/// including, `until`; `until` where there is none.
pub open spec fn find(s: Seq<u8>, byte: u8, from: int, until: int) -> int
    decreases until - from,
{
    if from >= until {
        until
    } else if s[from] == byte {
        from
    } else {
        find(s, byte, from + 1, until)
    }
}

/// What a signature header says: the timestamp of its last `t` field, and
/// the signatures of its `v1` fields in their order.
pub struct SignatureFields {
    pub timestamp: Option<Seq<u8>>,
    pub signatures: Seq<Seq<u8>>,
}

/// The fields read so far with one more field taken in. Fields with other
/// keys than `t` and `v1` are passed over.
pub open spec fn with_field(fields: SignatureFields, key: Seq<u8>, value: Seq<u8>) -> SignatureFields {
    if key == seq![0x74u8] {
        SignatureFields { timestamp: Some(value), signatures: fields.signatures }
    } else if key == seq![0x76u8, 0x31u8] {
        SignatureFields { timestamp: fields.timestamp, signatures: fields.signatures.push(value) }
    } else {
        fields
    }
}

/// Reads the fields of a header from position `start` on, `fields` being
/// what was read before. `None` where a field has no `=`.
pub open spec fn read_fields(header: Seq<u8>, start: int, fields: SignatureFields) -> Option<
    SignatureFields,
>
    decreases header.len() - start,
{
    if start < 0 || start > header.len() {
        None
    } else {
        let end = find(header, COMMA, start, header.len() as int);
        let eq = find(header, EQUALS, start, end);
        if eq >= end {
            None
        } else {
            let read = with_field(
                fields,
                header.subrange(start, eq),
                header.subrange(eq + 1, end),
            );
            if end >= header.len() {
                Some(read)
            } else {
                read_fields(header, end + 1, read)
            }
        }
    }
}

/// What a whole header says; `None` where it is malformed.
pub open spec fn header_fields(header: Seq<u8>) -> Option<SignatureFields> {
    read_fields(header, 0, SignatureFields { timestamp: None, signatures: Seq::empty() })
}

/// The fields of a signature header.
#[derive(Debug, Clone, PartialEq, Eq)]
pub struct SignatureHeader {
    pub timestamp: Option<Vec<u8>>,
    pub signatures: Vec<Vec<u8>>,
}

impl View for SignatureHeader {
    type V = SignatureFields;

    open spec fn view(&self) -> SignatureFields {
        SignatureFields {
            timestamp: match self.timestamp {
                Some(t) => Some(t@),
                None => None,
            },
            signatures: Seq::new(self.signatures@.len(), |i: int| self.signatures@[i]@),
        }
    }
}

/// The bytes of `s` from `from` up to, but not including, `to`.
fn copy_range(s: &[u8], from: usize, to: usize) -> (v: Vec<u8>)
    requires
        from <= to <= s@.len(),
    ensures
        v@ == s@.subrange(from as int, to as int),
{
    let mut v: Vec<u8> = Vec::new();
    let mut i: usize = from;
    while i < to
        invariant
            from <= i <= to,
            to <= s@.len(),
            v@ == s@.subrange(from as int, i as int),
        decreases to - i,
    {
        v.push(s[i]);
        i += 1;
        assert(v@ =~= s@.subrange(from as int, i as int));
    }
    assert(v@ =~= s@.subrange(from as int, to as int));
    v
}

/// The position of the first `byte` in `s` from `from` up to `until`.
fn position(s: &[u8], byte: u8, from: usize, until: usize) -> (at: usize)
    requires
        from <= until <= s@.len(),
    ensures
        at == find(s@, byte, from as int, until as int),
        from <= at <= until,
{
    let mut i: usize = from;
    while i < until && s[i] != byte
        invariant
            from <= i <= until,
            until <= s@.len(),
            find(s@, byte, from as int, until as int) == find(s@, byte, i as int, until as int),
        decreases until - i,
    {
        i += 1;
    }
    i
}

/// Whether two byte strings are the same.
fn bytes_eq(a: &Vec<u8>, b: &[u8]) -> (same: bool)
    ensures
        same == (a@ == b@),
{
    if a.len() != b.len() {
        return false;
    }
    let mut i: usize = 0;
    while i < a.len()
        invariant
            i <= a.len(),
            a.len() == b@.len(),
            forall|k: int| 0 <= k < i ==> a@[k] == b@[k],
        decreases a.len() - i,
    {
        if a[i] != b[i] {
            return false;
        }
        i += 1;
    }
    assert(a@ =~= b@);
    true
}

/// Reads a signature header. Refuses a header in which some field has no
/// `=`.
pub fn parse_signature_header(header: &[u8]) -> (r: Result<SignatureHeader, AppError>)
    ensures
        match r {
            Ok(parsed) => header_fields(header@) == Some(parsed@),
            Err(e) => header_fields(header@) is None && e@ == (Failure {
                kind: ErrorKind::BadRequest,
                reason: "Malformed signature header"@,
            }),
        },
{
    let n = header.len();
    let mut parsed = SignatureHeader { timestamp: None, signatures: Vec::new() };
    let mut start: usize = 0;
    let key_t: [u8; 1] = [0x74];
    let key_v1: [u8; 2] = [0x76, 0x31];
    assert(parsed@.signatures =~= Seq::<Seq<u8>>::empty());
    loop
        invariant
            n == header@.len(),
            start <= n,
            key_t@ == seq![0x74u8],
            key_v1@ == seq![0x76u8, 0x31u8],
            header_fields(header@) == read_fields(header@, start as int, parsed@),
        decreases n - start,
    {
        let end = position(header, COMMA, start, n);
        let eq = position(header, EQUALS, start, end);
        if eq >= end {
            return Err(failure(ErrorKind::BadRequest, "Malformed signature header"));
        }
        let key = copy_range(header, start, eq);
        let value = copy_range(header, eq + 1, end);
        let ghost before = parsed@;
        if bytes_eq(&key, key_t.as_slice()) {
            parsed.timestamp = Some(value);
        } else if bytes_eq(&key, key_v1.as_slice()) {
            parsed.signatures.push(value);
            assert(parsed@.signatures =~= before.signatures.push(value@));
        } else {
            assert(parsed@.signatures =~= before.signatures);
        }
        assert(parsed@.signatures =~= with_field(before, key@, value@).signatures);
        assert(parsed@ == with_field(before, key@, value@));
        if end >= n {
            return Ok(parsed);
        }
        start = end + 1;
    }
}

/// What is signed: the timestamp, a dot, and the payload.
pub open spec fn signed_payload(timestamp: Seq<u8>, payload: Seq<u8>) -> Seq<u8> {
    timestamp + seq![DOT] + payload
}

/// A tag as it stands in a header: the bytes of its hexadecimal text.
pub open spec fn expected_signature(tag: Seq<u8>) -> Seq<u8> {
    encode_utf8(hex_text(tag))
}

/// Whether one of the signatures is the expected one.
pub open spec fn has_signature(signatures: Seq<Seq<u8>>, expected: Seq<u8>) -> bool {
    exists|i: int| 0 <= i < signatures.len() && #[trigger] signatures[i] == expected
}

/// Why the fields of a header do not vouch for a payload, if they do not,
/// given the outcome of computing the tag. The checks run in this order: a
/// timestamp is there, a signature is there, the tag could be computed, and
/// one of the signatures is the tag's text.
pub open spec fn fields_refusal(fields: SignatureFields, tag: Option<Seq<u8>>) -> Option<Failure> {
    if fields.timestamp is None {
        Some(Failure { kind: ErrorKind::BadRequest, reason: "Missing timestamp in signature"@ })
    } else if fields.signatures.len() == 0 {
        Some(Failure { kind: ErrorKind::BadRequest, reason: "Missing signature"@ })
    } else {
        match tag {
            None => Some(Failure { kind: ErrorKind::Internal, reason: "HMAC error"@ }),
            Some(tag) => if has_signature(fields.signatures, expected_signature(tag)) {
                None
            } else {
                Some(Failure { kind: ErrorKind::BadRequest, reason: "Invalid webhook signature"@ })
            },
        }
    }
}

/// Why a header does not vouch for a payload under a secret, if it does not.
pub open spec fn signature_refusal(payload: Seq<u8>, header: Seq<u8>, secret: Seq<u8>) -> Option<
    Failure,
> {
    match header_fields(header) {
        None => Some(
            Failure { kind: ErrorKind::BadRequest, reason: "Malformed signature header"@ },
        ),
        Some(fields) => fields_refusal(
            fields,
            match fields.timestamp {
                Some(timestamp) => hmac_sha256_tag(secret, signed_payload(timestamp, payload)),
                None => None,
            },
        ),
    }
}

/// Whether two byte strings are the same, in time that depends on their
/// lengths alone: every byte is looked at, wherever the first difference is.
pub fn constant_time_eq(a: &[u8], b: &[u8]) -> (same: bool)
    ensures
        same == (a@ == b@),
{
    if a.len() != b.len() {
        return false;
    }
    let mut difference: u8 = 0;
    let mut i: usize = 0;
    while i < a.len()
        invariant
            i <= a@.len(),
            a@.len() == b@.len(),
            difference == 0 <==> forall|k: int| 0 <= k < i ==> a@[k] == b@[k],
        decreases a.len() - i,
    {
        let x: u8 = a[i];
        let y: u8 = b[i];
        let ghost before = difference;
        difference = difference | (x ^ y);
        assert(difference == 0 <==> (before == 0 && x == y)) by (bit_vector)
            requires
                difference == before | (x ^ y),
        ;
        i += 1;
    }
    if difference == 0 {
        assert(a@ =~= b@);
    }
    difference == 0
}

/// Whether one of the signatures of a header is the expected one. Every
/// signature is compared in constant time.
fn any_signature_matches(signatures: &Vec<Vec<u8>>, expected: &[u8]) -> (found: bool)
    ensures
        found == has_signature(Seq::new(signatures@.len(), |i: int| signatures@[i]@), expected@),
{
    let ghost views = Seq::new(signatures@.len(), |i: int| signatures@[i]@);
    let mut found = false;
    let mut i: usize = 0;
    while i < signatures.len()
        invariant
            i <= signatures.len(),
            views == Seq::new(signatures@.len(), |i: int| signatures@[i]@),
            found <==> exists|k: int| 0 <= k < i && #[trigger] views[k] == expected@,
        decreases signatures.len() - i,
    {
        if constant_time_eq(signatures[i].as_slice(), expected) {
            assert(views[i as int] == expected@);
            found = true;
        }
        i += 1;
    }
    found
}

/// Decides on the fields of a header once the tag has been computed, or
/// could not be: `tag` is the outcome of that computation.
pub fn check_signature_fields(fields: &SignatureHeader, tag: Option<&[u8]>) -> (r: Result<
    (),
    AppError,
>)
    ensures
        match r {
            Ok(_) => fields_refusal(
                fields@,
                match tag {
                    Some(t) => Some(t@),
                    None => None,
                },
            ) is None,
            Err(e) => fields_refusal(
                fields@,
                match tag {
                    Some(t) => Some(t@),
                    None => None,
                },
            ) == Some(e@),
        },
{
    if fields.timestamp.is_none() {
        return Err(failure(ErrorKind::BadRequest, "Missing timestamp in signature"));
    }
    if fields.signatures.len() == 0 {
        return Err(failure(ErrorKind::BadRequest, "Missing signature"));
    }
    let tag = match tag {
        Some(tag) => tag,
        None => {
            return Err(failure(ErrorKind::Internal, "HMAC error"));
        },
    };
    let expected = hex_encode(tag);
    if !any_signature_matches(&fields.signatures, expected.as_str().as_bytes()) {
        return Err(failure(ErrorKind::BadRequest, "Invalid webhook signature"));
    }
    Ok(())
}

/// Verify the signature of a webhook: the header must carry a timestamp and
/// at least one `v1` signature, and one of them must be the HMAC-SHA256 tag,
/// in hexadecimal, of timestamp, dot and payload under the secret.
pub fn verify_stripe_signature(payload: &[u8], sig_header: &[u8], secret: &[u8]) -> (r: Result<
    (),
    AppError,
>)
    ensures
        match r {
            Ok(_) => signature_refusal(payload@, sig_header@, secret@) is None,
            Err(e) => signature_refusal(payload@, sig_header@, secret@) == Some(e@),
        },
{
    let fields = match parse_signature_header(sig_header) {
        Ok(fields) => fields,
        Err(e) => {
            return Err(e);
        },
    };
    let tag = match &fields.timestamp {
        Some(timestamp) => {
            let mut signed: Vec<u8> = Vec::new();
            signed.extend_from_slice(timestamp.as_slice());
            signed.push(DOT);
            signed.extend_from_slice(payload);
            assert(signed@ =~= signed_payload(timestamp@, payload@));
            hmac_sha256(secret, signed.as_slice())
        },
        None => None,
    };
    match &tag {
        Some(bytes) => check_signature_fields(&fields, Some(bytes.as_slice())),
        None => check_signature_fields(&fields, None),
    }
}

} // verus!
