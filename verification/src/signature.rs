//! HMAC-SHA256 tags over byte payloads: computing one, and checking a
//! presented one in constant time.

use vstd::prelude::*;

verus! {

/// The longest key or message, in bytes, that is handed to the HMAC
/// implementation. Its message counter is in bits and 64 bits wide; this
/// bound keeps every input, padding included, well inside it.
pub const MAX_HMAC_INPUT: u64 = 0x1000_0000_0000_0000;

/// The HMAC-SHA256 tag of `message` under `key`, as RFC 2104 defines it over
/// SHA-256. The function is left uninterpreted: the library relies on *ring*
/// to compute it.
pub uninterp spec fn hmac_sha256(key: Seq<u8>, message: Seq<u8>) -> Seq<u8>;

/// A byte string of `len` bytes is short enough to be a key or a message.
pub open spec fn fits_hmac(len: nat) -> bool {
    len < MAX_HMAC_INPUT
}

/// `tag` is the tag that `secret` gives to `payload`. A secret or a payload
/// too long to be signed has no valid tag.
pub open spec fn signature_valid(payload: Seq<u8>, secret: Seq<u8>, tag: Seq<u8>) -> bool {
    &&& fits_hmac(secret.len())
    &&& fits_hmac(payload.len())
    &&& tag == hmac_sha256(secret, payload)
}

/// Calls `ring::hmac::sign` with an HMAC-SHA256 key made from `key` by
/// `ring::hmac::Key::new`. Trusted: the bytes of the returned tag are the
/// HMAC-SHA256 of `message` under `key`. Both calls panic on an input of
/// 2^61 bytes or more, which the precondition rules out.
#[verifier::external_body]
fn ring_hmac_sign(key: &[u8], message: &[u8]) -> (tag: Vec<u8>)
    requires
        fits_hmac(key@.len()),
        fits_hmac(message@.len()),
    ensures
        tag@ == hmac_sha256(key@, message@),
{
    let key = ring::hmac::Key::new(ring::hmac::HMAC_SHA256, key);
    ring::hmac::sign(&key, message).as_ref().to_vec()
}

/// Calls `ring::hmac::verify` with an HMAC-SHA256 key made from `key` by
/// `ring::hmac::Key::new`. Trusted: it succeeds exactly when `tag` equals the
/// HMAC-SHA256 of `message` under `key`; *ring* computes that tag as
/// `ring::hmac::sign` does and compares the two without a data-dependent
/// branch.
#[verifier::external_body]
fn ring_hmac_verify(key: &[u8], message: &[u8], tag: &[u8]) -> (matches: bool)
    requires
        fits_hmac(key@.len()),
        fits_hmac(message@.len()),
    ensures
        matches == (tag@ == hmac_sha256(key@, message@)),
{
    let key = ring::hmac::Key::new(ring::hmac::HMAC_SHA256, key);
    ring::hmac::verify(&key, message, tag).is_ok()
}

fn hmac_accepts(len: usize) -> (fits: bool)
    ensures
        fits == fits_hmac(len as nat),
{
    (len as u64) < MAX_HMAC_INPUT
}

/// Computes the HMAC-SHA256 tag of `content` under `secret`.
pub fn compute_hmac(content: &[u8], secret: &[u8]) -> (tag: Vec<u8>)
    requires
        fits_hmac(secret@.len()),
        fits_hmac(content@.len()),
    ensures
        tag@ == hmac_sha256(secret@, content@),
        signature_valid(content@, secret@, tag@),
{
    ring_hmac_sign(secret, content)
}

/// Recomputes the tag of `content` under `secret` and compares it with
/// `presented_tag` in constant time. Nothing verifies under a secret, or for
/// a content, that is too long to be signed.
pub fn verify_hmac(content: &[u8], secret: &[u8], presented_tag: &[u8]) -> (valid: bool)
    ensures
        valid == signature_valid(content@, secret@, presented_tag@),
{
    if hmac_accepts(secret.len()) && hmac_accepts(content.len()) {
        ring_hmac_verify(secret, content, presented_tag)
    } else {
        false
    }
}

/// Signing and then verifying succeeds: the tag computed for a payload is
/// valid for that payload under the same secret.
pub proof fn signed_payload_verifies(payload: Seq<u8>, secret: Seq<u8>)
    requires
        fits_hmac(secret.len()),
        fits_hmac(payload.len()),
    ensures
        signature_valid(payload, secret, hmac_sha256(secret, payload)),
{
}

/// No false accept on the tag: a valid tag with any one byte replaced by a
/// different byte is not valid.
pub proof fn mutated_tag_is_rejected(
    payload: Seq<u8>,
    secret: Seq<u8>,
    tag: Seq<u8>,
    index: int,
    byte: u8,
)
    requires
        signature_valid(payload, secret, tag),
        0 <= index < tag.len(),
        byte != tag[index],
    ensures
        !signature_valid(payload, secret, tag.update(index, byte)),
{
    assert(tag.update(index, byte)[index] != tag[index]);
}

/// No false accept on the payload: the tag of a payload is not valid for a
/// payload with one byte replaced, provided the two payloads do not collide
/// under HMAC-SHA256 with this secret.
pub proof fn mutated_payload_is_rejected(
    payload: Seq<u8>,
    secret: Seq<u8>,
    index: int,
    byte: u8,
)
    requires
        0 <= index < payload.len(),
        byte != payload[index],
        hmac_sha256(secret, payload.update(index, byte)) != hmac_sha256(secret, payload),
    ensures
        !signature_valid(payload.update(index, byte), secret, hmac_sha256(secret, payload)),
{
}

} // verus!
