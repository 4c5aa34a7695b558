//! Checks the signature that Airwallex puts on a webhook notification: the HMAC-SHA256 of the
//! timestamp and the raw body under the shared secret, in hexadecimal.
use crate::response::WebhookError;
use crate::text;
use crate::text::to_lower_hex;
use hmac::{Hmac, Mac};
use subtle::ConstantTimeEq;
use vstd::prelude::*;

verus! {

/// `hmac::digest::InvalidLength`, the refusal of a key by its length.
#[verifier::external_type_specification]
#[verifier::external_body]
pub struct ExInvalidLength(hmac::digest::InvalidLength);

/// The HMAC-SHA256 tag of `message` under `key`, as the `hmac` and `sha2` crates compute it.
pub uninterp spec fn hmac_sha256_tag(key: Seq<u8>, message: Seq<u8>) -> Seq<u8>;

/// Computes a tag with `Hmac::<Sha256>` of the `hmac` crate: `new_from_slice`, `update` and
/// `finalize`. HMAC takes a key of any length, so `new_from_slice` does not fail; a tag has
/// thirty-two bytes and depends on the key and the message alone.
#[verifier::external_body]
fn hmac_sha256(key: &[u8], message: &[u8]) -> (tag: Result<Vec<u8>, hmac::digest::InvalidLength>)
    ensures
        tag is Ok,
        tag->Ok_0@ == hmac_sha256_tag(key@, message@),
        tag->Ok_0@.len() == 32,
{
    let mut mac = Hmac::<sha2::Sha256>::new_from_slice(key)?;
    mac.update(message);
    Ok(mac.finalize().into_bytes().to_vec())
}

/// Compares two byte strings with `ConstantTimeEq::ct_eq` of the `subtle` crate and unwraps
/// the choice: one where they are equal, zero where they differ in length or in a byte.
#[verifier::external_body]
fn ct_eq_bytes(a: &[u8], b: &[u8]) -> (equal: u8)
    ensures
        equal == (if a@ == b@ {
            1u8
        } else {
            0u8
        }),
{
    a.ct_eq(b).unwrap_u8()
}

/// The bytes that a signature covers: the timestamp, then the body as it was sent.
pub open spec fn signed_message(timestamp: Seq<char>, raw_body: Seq<u8>) -> Seq<u8> {
    vstd::utf8::encode_utf8(timestamp) + raw_body
}

/// The tag that the holder of `secret` computes for a notification.
pub open spec fn notification_tag(
    secret: Seq<char>,
    timestamp: Seq<char>,
    raw_body: Seq<u8>,
) -> Seq<u8> {
    hmac_sha256_tag(vstd::utf8::encode_utf8(secret), signed_message(timestamp, raw_body))
}

/// A signature as it is compared: without surrounding white space and in lower case.
pub open spec fn normalized_signature(signature: Seq<char>) -> Seq<char> {
    text::ascii_lowercase(text::trimmed(signature))
}

/// Whether `signature` writes `tag` in hexadecimal.
pub open spec fn writes_tag(signature: Seq<char>, tag: Seq<u8>) -> bool {
    normalized_signature(signature) == text::lower_hex(tag)
}

/// Whether `signature` is the one that the holder of `secret` puts on a notification.
pub open spec fn is_authentic(
    secret: Seq<char>,
    timestamp: Seq<char>,
    raw_body: Seq<u8>,
    signature: Seq<char>,
) -> bool {
    writes_tag(signature, notification_tag(secret, timestamp, raw_body))
}

/// Whether the signature writes the tag in hexadecimal, in either case and with white space
/// around it. The two are compared in constant time.
pub fn signature_matches(tag: &[u8], provided_signature: &str) -> (matches: bool)
    ensures
        matches == writes_tag(provided_signature@, tag@),
        matches <==> text::ascii_lowercase(text::trimmed(provided_signature@)) == text::lower_hex(
            tag@,
        ),
{
    let provided_signature = provided_signature.trim().to_ascii_lowercase();
    let expected_signature = to_lower_hex(tag);
    let provided = provided_signature.as_str().as_bytes();
    let expected = expected_signature.as_str().as_bytes();
    if expected.len() != provided.len() || ct_eq_bytes(expected, provided) != 1 {
        return false;
    }
    proof {
        text::lemma_same_bytes_same_text(expected_signature@, provided_signature@);
    }
    true
}

/// Accepts a notification whose signature was made with `secret` for this timestamp and body.
pub fn verify_signature(
    secret: &str,
    timestamp: &str,
    raw_body: &[u8],
    provided_signature: &str,
) -> (result: Result<(), WebhookError>)
    ensures
        result == (if is_authentic(secret@, timestamp@, raw_body@, provided_signature@) {
            Ok::<(), WebhookError>(())
        } else {
            Err(WebhookError::InvalidSignature)
        }),
        result is Ok <==> text::ascii_lowercase(text::trimmed(provided_signature@))
            == text::lower_hex(
            hmac_sha256_tag(
                vstd::utf8::encode_utf8(secret@),
                vstd::utf8::encode_utf8(timestamp@) + raw_body@,
            ),
        ),
        result is Err ==> result->Err_0 is InvalidSignature,
        result is Ok ==> normalized_signature(provided_signature@).len() == 64,
{
    let mut message: Vec<u8> = Vec::new();
    message.extend_from_slice(timestamp.as_bytes());
    message.extend_from_slice(raw_body);
    assert(message@ =~= signed_message(timestamp@, raw_body@));
    match hmac_sha256(secret.as_bytes(), message.as_slice()) {
        Ok(tag) => if signature_matches(tag.as_slice(), provided_signature) {
            Ok(())
        } else {
            Err(WebhookError::InvalidSignature)
        },
        Err(_) => Err(WebhookError::InvalidSignature),
    }
}

} // verus!
