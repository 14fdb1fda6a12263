//! Strict hexadecimal decoding, as `faster_hex` does it, and what it means.

use vstd::prelude::*;

verus! {

/// Why a run of hexadecimal digits could not be decoded.
#[derive(Clone, Copy, Debug, PartialEq, Eq, Structural)]
pub enum HexError {
    /// Some byte of the input is not one of `0-9`, `a-f`, `A-F`.
    InvalidChar,
    /// The input has an odd number of bytes, or fewer than two per byte of
    /// output; the number carried is twice the length of the output buffer.
    InvalidLength(usize),
    /// Twice the length of the output buffer does not fit in `usize`.
    Overflow,
}

/// `b` is an ASCII hexadecimal digit of either case.
pub open spec fn is_hex_digit(b: u8) -> bool {
    ||| 0x30 <= b <= 0x39
    ||| 0x41 <= b <= 0x46
    ||| 0x61 <= b <= 0x66
}

/// The number, below 16, that the hexadecimal digit `b` stands for.
pub open spec fn hex_digit_value(b: u8) -> int
    recommends
        is_hex_digit(b),
{
    if 0x30 <= b <= 0x39 {
        b - 0x30
    } else if 0x41 <= b <= 0x46 {
        b - 0x41 + 10
    } else {
        b - 0x61 + 10
    }
}

/// Every byte of `digits` is a hexadecimal digit.
pub open spec fn all_hex_digits(digits: Seq<u8>) -> bool {
    forall|i: int| 0 <= i < digits.len() ==> is_hex_digit(#[trigger] digits[i])
}

/// The bytes that `digits` spell, two digits to a byte, high nibble first.
/// A trailing odd digit is left out.
pub open spec fn hex_decoded(digits: Seq<u8>) -> Seq<u8> {
    Seq::new(
        digits.len() / 2,
        |i: int| (hex_digit_value(digits[2 * i]) * 16 + hex_digit_value(digits[2 * i + 1])) as u8,
    )
}

/// What decoding `digits` into a buffer of `room` bytes reports.
pub open spec fn hex_decode_outcome(digits: Seq<u8>, room: nat) -> Result<(), HexError> {
    if 2 * room > usize::MAX {
        Err(HexError::Overflow)
    } else if digits.len() < 2 * room || digits.len() % 2 != 0 {
        Err(HexError::InvalidLength((2 * room) as usize))
    } else if !all_hex_digits(digits) {
        Err(HexError::InvalidChar)
    } else {
        Ok(())
    }
}

/// Calls `faster_hex::hex_decode`, which checks lengths first, then every
/// byte of `src`, and only then writes. The contract states its three
/// rejections in that order, that a rejected input leaves `dst` untouched,
/// and that on success each byte of `dst` holds the value of the pair of
/// digits at twice its position.
#[verifier::external_body]
pub(crate) fn hex_decode(src: &[u8], dst: &mut [u8]) -> (outcome: Result<(), HexError>)
    ensures
        outcome == hex_decode_outcome(src@, old(dst)@.len()),
        final(dst)@.len() == old(dst)@.len(),
        outcome is Ok ==> final(dst)@ == hex_decoded(
            src@.take(2 * old(dst)@.len() as int),
        ),
        outcome is Err ==> final(dst)@ == old(dst)@,
{
    match faster_hex::hex_decode(src, dst) {
        Ok(()) => Ok(()),
        Err(faster_hex::Error::InvalidChar) => Err(HexError::InvalidChar),
        Err(faster_hex::Error::InvalidLength(len)) => Err(HexError::InvalidLength(len)),
        Err(faster_hex::Error::Overflow) => Err(HexError::Overflow),
    }
}

/// What strict decoding of `digits` yields: the bytes they spell, or the
/// first of the two defects found, an odd length before a foreign byte.
pub open spec fn hex_decode_result(digits: Seq<u8>) -> Result<Seq<u8>, HexError> {
    if digits.len() % 2 != 0 {
        Err(HexError::InvalidLength((digits.len() - 1) as usize))
    } else if !all_hex_digits(digits) {
        Err(HexError::InvalidChar)
    } else {
        Ok(hex_decoded(digits))
    }
}

/// Decodes a run of hexadecimal digits into the bytes it spells.
pub fn decode_hex(digits: &[u8]) -> (decoded: Result<Vec<u8>, HexError>)
    ensures
        match decoded {
            Ok(bytes) => hex_decode_result(digits@) matches Ok(spelled) && spelled == bytes@,
            Err(e) => hex_decode_result(digits@) matches Err(why) && why == e,
        },
{
    let mut bytes: Vec<u8> = vec![0u8; digits.len() / 2];
    match hex_decode(digits, bytes.as_mut_slice()) {
        Ok(()) => {
            assert(digits@.take(2 * (digits@.len() / 2) as int) == digits@);
            Ok(bytes)
        },
        Err(e) => Err(e),
    }
}

/// The small-letter hexadecimal digit for a number below 16.
pub open spec fn hex_digit(nibble: int) -> u8
    recommends
        0 <= nibble < 16,
{
    if nibble < 10 {
        (0x30 + nibble) as u8
    } else {
        (0x61 + nibble - 10) as u8
    }
}

/// `bytes` written out in small-letter hexadecimal, two digits to a byte.
pub open spec fn hex_encoded(bytes: Seq<u8>) -> Seq<u8> {
    Seq::new(
        2 * bytes.len(),
        |i: int|
            if i % 2 == 0 {
                hex_digit(bytes[i / 2] as int / 16)
            } else {
                hex_digit(bytes[i / 2] as int % 16)
            },
    )
}

/// Strict decoding undoes encoding: the digits written for any bytes decode
/// to those bytes.
pub proof fn hex_encoding_decodes(bytes: Seq<u8>)
    ensures
        all_hex_digits(hex_encoded(bytes)),
        hex_decode_result(hex_encoded(bytes)) matches Ok(spelled) && spelled == bytes,
{
    let digits = hex_encoded(bytes);
    assert(hex_decoded(digits) =~= bytes) by {
        assert forall|i: int| 0 <= i < bytes.len() implies hex_decoded(digits)[i] == bytes[i] by {
            assert(digits[2 * i] == hex_digit(bytes[(2 * i) / 2] as int / 16));
            assert(digits[2 * i + 1] == hex_digit(bytes[(2 * i + 1) / 2] as int % 16));
        }
    }
}

/// Two even runs of digits that differ in the value of one digit spell
/// different bytes.
pub proof fn hex_digit_change_changes_bytes(digits: Seq<u8>, at: int, digit: u8)
    requires
        digits.len() % 2 == 0,
        all_hex_digits(digits),
        0 <= at < digits.len(),
        is_hex_digit(digit),
        hex_digit_value(digit) != hex_digit_value(digits[at]),
    ensures
        all_hex_digits(digits.update(at, digit)),
        hex_decoded(digits.update(at, digit)) != hex_decoded(digits),
{
    let changed = digits.update(at, digit);
    let k = at / 2;
    assert(hex_decoded(changed)[k] != hex_decoded(digits)[k]) by {
        assert(is_hex_digit(digits[2 * k]) && is_hex_digit(digits[2 * k + 1]));
        assert(is_hex_digit(changed[2 * k]) && is_hex_digit(changed[2 * k + 1]));
    }
}

} // verus!
