//! From a caller's bytes to text: the checks on the bytes themselves.

use vstd::prelude::*;
use vstd::string::StringSliceAdditionalSpecFns;
use vstd::utf8::{decode_utf8, encode_utf8_decode_utf8, valid_utf8};
use crate::error::FailedCheck;

verus! {

/// Why `core::str::from_utf8` refused a byte slice. Nothing is read from it.
#[verifier::external_type_specification]
#[verifier::external_body]
pub struct ExUtf8Error(core::str::Utf8Error);

/// `core::str::from_utf8` accepts a byte slice exactly when it is
/// well-formed UTF-8, and the string slice it then returns is made of those
/// same bytes.
pub assume_specification[ core::str::from_utf8 ](v: &[u8]) -> (text: Result<
    &str,
    core::str::Utf8Error,
>)
    ensures
        text is Ok <==> valid_utf8(v@),
        text matches Ok(s) ==> s.spec_bytes() == v@,
;

/// Whether a zero byte occurs among `bytes`.
pub fn contains_nul(bytes: &[u8]) -> (found: bool)
    ensures
        found == bytes@.contains(0u8),
{
    let mut k: usize = 0;
    while k < bytes.len()
        invariant
            k <= bytes@.len(),
            forall|t: int| 0 <= t < k ==> bytes[t] != 0u8,
        decreases bytes@.len() - k,
    {
        if bytes[k] == 0 {
            return true;
        }
        k = k + 1;
    }
    false
}

/// Whether `bytes` are well-formed UTF-8.
pub fn is_valid_encoding(bytes: &[u8]) -> (valid: bool)
    ensures
        valid == valid_utf8(bytes@),
{
    match core::str::from_utf8(bytes) {
        Ok(_) => true,
        Err(_) => false,
    }
}

/// Reads `bytes` as text, over their whole length. Bytes that hold a zero
/// byte are refused, and so are bytes that are not well-formed UTF-8.
pub fn value_to_str<'a>(bytes: &'a [u8]) -> (text: Result<&'a str, FailedCheck>)
    ensures
        bytes@.contains(0u8) ==> text == Err::<&str, FailedCheck>(FailedCheck::EmbeddedTerminator),
        !bytes@.contains(0u8) && !valid_utf8(bytes@) ==> text == Err::<&str, FailedCheck>(
            FailedCheck::ContentValidity,
        ),
        !bytes@.contains(0u8) && valid_utf8(bytes@) ==> text is Ok,
        text matches Ok(s) ==> s.spec_bytes() == bytes@ && s@ == decode_utf8(bytes@),
{
    if contains_nul(bytes) {
        return Err(FailedCheck::EmbeddedTerminator);
    }
    match core::str::from_utf8(bytes) {
        Ok(s) => {
            proof {
                encode_utf8_decode_utf8(s@);
            }
            Ok(s)
        },
        Err(_) => Err(FailedCheck::ContentValidity),
    }
}

} // verus!
