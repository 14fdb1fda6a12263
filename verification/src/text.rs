//! What the standard library says of decoding UTF-8.

use vstd::prelude::*;
use vstd::string::StringSliceAdditionalSpecFns;
use vstd::utf8::valid_utf8;

verus! {

/// `core::str::Utf8Error`, of which nothing is read.
#[verifier::external_type_specification]
#[verifier::external_body]
pub struct ExUtf8Error(core::str::Utf8Error);

/// `core::str::from_utf8` accepts exactly the well-formed UTF-8 byte
/// strings, and the string slice it hands out is made of the bytes given.
pub assume_specification[ core::str::from_utf8 ](bytes: &[u8]) -> (text: Result<
    &str,
    core::str::Utf8Error,
>)
    ensures
        text is Ok <==> valid_utf8(bytes@),
        text matches Ok(s) ==> s.spec_bytes() == bytes@,
;

} // verus!
