//! The signature verifier: a delivery is accepted only if its signature
//! header carries the HMAC-SHA256 code of its raw body under the shared
//! secret.

use crate::headers::{header_value, Headers};
use crate::hex::{
    all_hex_digits, decode_hex, hex_decode_result, hex_digit_change_changes_bytes, hex_digit_value,
    hex_encoded, hex_encoding_decodes, is_hex_digit, HexError,
};
use hmac::Mac;
use vstd::prelude::*;
use vstd::slice::slice_subrange;
use vstd::string::StringSliceAdditionalSpecFns;

verus! {

/// The header that carries the signature of a delivery.
pub const SIGNATURE_HEADER: &'static str = "x-hub-signature-256";

/// Why a delivery was not accepted.
#[derive(Clone, Copy, Debug, PartialEq, Eq, Structural)]
pub enum VerificationError {
    /// The request has no signature header.
    MissingHeader,
    /// The signature is not an even run of hexadecimal digits.
    MalformedSignature(HexError),
    /// The signature is well formed but is not the code of this body under
    /// the shared secret.
    SignatureMismatch,
}

/// `digest::MacError`, the one thing a failed comparison reports.
#[verifier::external_type_specification]
#[verifier::external_body]
pub struct ExMacError(digest::MacError);

/// The HMAC-SHA256 authentication code of `message` under `key`.
pub uninterp spec fn hmac_sha256(key: Seq<u8>, message: Seq<u8>) -> Seq<u8>;

/// Keys HMAC-SHA256 with `key` through `Mac::new_from_slice`, which accepts
/// a key of any length, feeds it `message`, and has `Mac::verify_slice`
/// compare the code with `tag`. That comparison rejects a tag that is not 32
/// bytes long and otherwise compares all bytes in constant time. The
/// contract names the code and says that exactly the equal tag passes.
#[verifier::external_body]
pub(crate) fn mac_verify(key: &[u8], message: &[u8], tag: &[u8]) -> (checked: Result<
    (),
    digest::MacError,
>)
    ensures
        checked is Ok <==> tag@ == hmac_sha256(key@, message@),
        checked is Ok ==> tag@.len() == 32,
{
    let mut mac = hmac::Hmac::<sha2::Sha256>::new_from_slice(key).expect("any key length");
    mac.update(message);
    mac.verify_slice(tag)
}

/// Where the digits of a signature value begin: after its last `=`, or at
/// its start where it has none.
pub open spec fn digits_start(value: Seq<u8>) -> int
    decreases value.len(),
{
    if value.len() == 0 {
        0
    } else if value.last() == 0x3d {
        value.len() as int
    } else {
        digits_start(value.drop_last())
    }
}

/// The part of a signature value that holds the digest: what follows the
/// last `=`, the algorithm prefix before it being ignored.
pub open spec fn signature_digits(value: Seq<u8>) -> Seq<u8> {
    value.skip(digits_start(value))
}

/// The code that the headers claim for the delivery, or why none can be
/// read from them.
pub open spec fn claimed_tag(headers: Seq<(Seq<u8>, Seq<u8>)>) -> Result<
    Seq<u8>,
    VerificationError,
> {
    match header_value(headers, SIGNATURE_HEADER.spec_bytes()) {
        None => Err(VerificationError::MissingHeader),
        Some(value) => match hex_decode_result(signature_digits(value)) {
            Err(e) => Err(VerificationError::MalformedSignature(e)),
            Ok(tag) => Ok(tag),
        },
    }
}

/// The verdict on a delivery with the given headers and raw body, under the
/// shared secret.
pub open spec fn verification(
    secret: Seq<u8>,
    headers: Seq<(Seq<u8>, Seq<u8>)>,
    body: Seq<u8>,
) -> Result<(), VerificationError> {
    match claimed_tag(headers) {
        Err(e) => Err(e),
        Ok(tag) => if tag == hmac_sha256(secret, body) {
            accepted()
        } else {
            refused(VerificationError::SignatureMismatch)
        },
    }
}

/// The verdict that accepts a delivery.
pub open spec fn accepted() -> Result<(), VerificationError> {
    Ok(())
}

/// The verdict that refuses a delivery for the reason given.
pub open spec fn refused(why: VerificationError) -> Result<(), VerificationError> {
    Err(why)
}

/// The digest part of a signature value.
pub fn signature_digits_of(value: &[u8]) -> (digits: &[u8])
    ensures
        digits@ == signature_digits(value@),
{
    let mut start: usize = value.len();
    assert(value@.take(start as int) == value@);
    while start > 0 && value[start - 1] != 0x3d
        invariant
            start <= value@.len(),
            digits_start(value@) == digits_start(value@.take(start as int)),
        decreases start,
    {
        assert(value@.take(start as int).drop_last() == value@.take(start - 1));
        start -= 1;
    }
    slice_subrange(value, start, value.len())
}

/// Reads the claimed code out of the headers of a delivery.
pub fn expected_tag(headers: &Headers) -> (tag: Result<Vec<u8>, VerificationError>)
    ensures
        match tag {
            Ok(bytes) => claimed_tag(headers@) matches Ok(claimed) && claimed == bytes@,
            Err(e) => claimed_tag(headers@) matches Err(why) && why == e,
        },
{
    match headers.get(SIGNATURE_HEADER) {
        None => Err(VerificationError::MissingHeader),
        Some(value) => match decode_hex(signature_digits_of(value)) {
            Ok(bytes) => Ok(bytes),
            Err(e) => Err(VerificationError::MalformedSignature(e)),
        },
    }
}

/// Turns the outcome of the code comparison into the verdict.
pub fn mac_verdict(checked: Result<(), digest::MacError>) -> (verdict: Result<
    (),
    VerificationError,
>)
    ensures
        verdict == if checked is Ok {
            accepted()
        } else {
            refused(VerificationError::SignatureMismatch)
        },
{
    match checked {
        Ok(()) => Ok(()),
        Err(_) => Err(VerificationError::SignatureMismatch),
    }
}

/// Authenticates a delivery: succeeds exactly when the signature header is
/// present, its digest part is well-formed hexadecimal, and the decoded
/// bytes are the HMAC-SHA256 code of the raw body under `secret`.
pub fn verify(secret: &[u8], headers: &Headers, body: &[u8]) -> (verdict: Result<
    (),
    VerificationError,
>)
    ensures
        verdict == verification(secret@, headers@, body@),
        header_value(headers@, SIGNATURE_HEADER.spec_bytes()) is None ==> verdict == refused(
            VerificationError::MissingHeader,
        ),
        claimed_tag(headers@) matches Ok(tag) && tag.len() != 32 ==> verdict == refused(
            VerificationError::SignatureMismatch,
        ),
{
    match expected_tag(headers) {
        Err(e) => Err(e),
        Ok(tag) => mac_verdict(mac_verify(secret, body, tag.as_slice())),
    }
}

/// The signature value that a sender holding the right code writes: an
/// algorithm prefix, `=`, and the code in hexadecimal.
pub open spec fn signed_value(prefix: Seq<u8>, tag: Seq<u8>) -> Seq<u8> {
    prefix + seq![0x3du8] + hex_encoded(tag)
}

proof fn lemma_digits_start_after_equals(prefix: Seq<u8>, digits: Seq<u8>)
    requires
        forall|i: int| 0 <= i < digits.len() ==> digits[i] != 0x3d,
    ensures
        digits_start(prefix + seq![0x3du8] + digits) == prefix.len() + 1,
    decreases digits.len(),
{
    let value = prefix + seq![0x3du8] + digits;
    if digits.len() == 0 {
        assert(value.last() == 0x3d);
    } else {
        assert(value.last() == digits.last());
        assert(value.drop_last() =~= prefix + seq![0x3du8] + digits.drop_last());
        lemma_digits_start_after_equals(prefix, digits.drop_last());
    }
}

proof fn lemma_digits_start_bare(value: Seq<u8>)
    requires
        forall|i: int| 0 <= i < value.len() ==> value[i] != 0x3d,
    ensures
        digits_start(value) == 0,
    decreases value.len(),
{
    if value.len() > 0 {
        lemma_digits_start_bare(value.drop_last());
    }
}

/// The digest part of a value is what follows `=` when nothing after that
/// `=` is itself an `=`.
pub proof fn digits_follow_last_equals(prefix: Seq<u8>, digits: Seq<u8>)
    requires
        forall|i: int| 0 <= i < digits.len() ==> digits[i] != 0x3d,
    ensures
        signature_digits(prefix + seq![0x3du8] + digits) == digits,
{
    lemma_digits_start_after_equals(prefix, digits);
    assert((prefix + seq![0x3du8] + digits).skip(prefix.len() as int + 1) =~= digits);
}

/// A value without any `=` is all digest.
pub proof fn digits_of_bare_value(value: Seq<u8>)
    requires
        forall|i: int| 0 <= i < value.len() ==> value[i] != 0x3d,
    ensures
        signature_digits(value) == value,
{
    lemma_digits_start_bare(value);
    assert(value.skip(0) =~= value);
}

/// For every secret and body, a delivery whose signature header carries the
/// code of that body under that secret, after any algorithm prefix, is
/// accepted.
pub proof fn signed_delivery_is_accepted(
    secret: Seq<u8>,
    headers: Seq<(Seq<u8>, Seq<u8>)>,
    body: Seq<u8>,
    prefix: Seq<u8>,
)
    requires
        header_value(headers, SIGNATURE_HEADER.spec_bytes()) == Some(
            signed_value(prefix, hmac_sha256(secret, body)),
        ),
    ensures
        verification(secret, headers, body) == accepted(),
{
    let tag = hmac_sha256(secret, body);
    hex_encoding_decodes(tag);
    digits_follow_last_equals(prefix, hex_encoded(tag));
}

/// Changing one digit of an accepted signature to a digit of another value
/// makes the delivery fail with `SignatureMismatch`.
pub proof fn altered_digit_is_a_mismatch(
    secret: Seq<u8>,
    signed: Seq<(Seq<u8>, Seq<u8>)>,
    altered: Seq<(Seq<u8>, Seq<u8>)>,
    body: Seq<u8>,
    prefix: Seq<u8>,
    at: int,
    digit: u8,
)
    requires
        header_value(signed, SIGNATURE_HEADER.spec_bytes()) == Some(
            signed_value(prefix, hmac_sha256(secret, body)),
        ),
        0 <= at < hex_encoded(hmac_sha256(secret, body)).len(),
        is_hex_digit(digit),
        hex_digit_value(digit) != hex_digit_value(hex_encoded(hmac_sha256(secret, body))[at]),
        header_value(altered, SIGNATURE_HEADER.spec_bytes()) == Some(
            prefix + seq![0x3du8] + hex_encoded(hmac_sha256(secret, body)).update(at, digit),
        ),
    ensures
        verification(secret, signed, body) == accepted(),
        verification(secret, altered, body) == refused(
            VerificationError::SignatureMismatch,
        ),
{
    let tag = hmac_sha256(secret, body);
    let digits = hex_encoded(tag);
    signed_delivery_is_accepted(secret, signed, body, prefix);
    hex_encoding_decodes(tag);
    hex_digit_change_changes_bytes(digits, at, digit);
    digits_follow_last_equals(prefix, digits.update(at, digit));
}

/// Changing one digit of an accepted signature to a byte that is no digit,
/// and no `=` either, makes the delivery fail with `MalformedSignature`.
pub proof fn foreign_byte_is_malformed(
    secret: Seq<u8>,
    altered: Seq<(Seq<u8>, Seq<u8>)>,
    body: Seq<u8>,
    prefix: Seq<u8>,
    at: int,
    byte: u8,
)
    requires
        0 <= at < hex_encoded(hmac_sha256(secret, body)).len(),
        !is_hex_digit(byte),
        byte != 0x3d,
        header_value(altered, SIGNATURE_HEADER.spec_bytes()) == Some(
            prefix + seq![0x3du8] + hex_encoded(hmac_sha256(secret, body)).update(at, byte),
        ),
    ensures
        verification(secret, altered, body) == refused(
            VerificationError::MalformedSignature(HexError::InvalidChar),
        ),
{
    let digits = hex_encoded(hmac_sha256(secret, body));
    hex_encoding_decodes(hmac_sha256(secret, body));
    digits_follow_last_equals(prefix, digits.update(at, byte));
    assert(!is_hex_digit(digits.update(at, byte)[at]));
}

/// A delivery accepted for one body is a `SignatureMismatch` for any body
/// whose code under the secret is a different one.
pub proof fn altered_body_is_a_mismatch(
    secret: Seq<u8>,
    headers: Seq<(Seq<u8>, Seq<u8>)>,
    body: Seq<u8>,
    other: Seq<u8>,
)
    requires
        verification(secret, headers, body) == accepted(),
        hmac_sha256(secret, other) != hmac_sha256(secret, body),
    ensures
        verification(secret, headers, other) == refused(
            VerificationError::SignatureMismatch,
        ),
{
}

/// Without a signature header the verdict is `MissingHeader`, whatever the
/// secret and the body, and so never `SignatureMismatch`.
pub proof fn absent_header_is_missing(
    secret: Seq<u8>,
    headers: Seq<(Seq<u8>, Seq<u8>)>,
    body: Seq<u8>,
)
    requires
        header_value(headers, SIGNATURE_HEADER.spec_bytes()) is None,
    ensures
        verification(secret, headers, body) == refused(
            VerificationError::MissingHeader,
        ),
{
}

/// A signature whose digest part has an odd length, or holds a byte that is
/// not a hexadecimal digit, is a `MalformedSignature`.
pub proof fn bad_digits_are_malformed(
    secret: Seq<u8>,
    headers: Seq<(Seq<u8>, Seq<u8>)>,
    body: Seq<u8>,
    value: Seq<u8>,
)
    requires
        header_value(headers, SIGNATURE_HEADER.spec_bytes()) == Some(value),
        signature_digits(value).len() % 2 != 0 || !all_hex_digits(signature_digits(value)),
    ensures
        verification(secret, headers, body) matches Err(VerificationError::MalformedSignature(_)),
        signature_digits(value).len() % 2 != 0 ==> verification(secret, headers, body) == refused(
            VerificationError::MalformedSignature(
                HexError::InvalidLength((signature_digits(value).len() - 1) as usize),
            ),
        ),
        signature_digits(value).len() % 2 == 0 ==> verification(secret, headers, body) == refused(
            VerificationError::MalformedSignature(HexError::InvalidChar),
        ),
{
}

} // verus!
