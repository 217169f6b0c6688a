//! The input validator: what a value handed over by the host has to be
//! before a distance is computed on it.

use vstd::prelude::*;
use vstd::string::StringSliceAdditionalSpecFns;
use vstd::utf8::{decode_utf8, valid_utf8};
use crate::error::FailedCheck;
use crate::text::{is_valid_encoding, value_to_str};

verus! {

/// The encoding that the host declares for a string.
#[derive(Clone, Copy, Debug, PartialEq, Eq, Structural)]
pub enum Encoding {
    Utf8,
    Other,
}

/// A value of the host, as far as the validator looks at it: whether it is
/// a string, and for a string its declared encoding and its bytes, borrowed
/// from the host for the length of the call.
#[derive(Clone, Copy, Debug)]
pub enum HostValue<'a> {
    /// Anything that is not a string.
    NotText,
    /// A string of the host.
    Text { encoding: Encoding, bytes: &'a [u8] },
}

impl<'a> HostValue<'a> {
    /// The first check that this value fails, if it fails one. The checks
    /// come in a fixed order: the type, the declared encoding, the validity
    /// of the bytes, the absence of a zero byte.
    pub open spec fn first_failed_check(self) -> Option<FailedCheck> {
        match self {
            HostValue::NotText => Some(FailedCheck::Type),
            HostValue::Text { encoding, bytes } => {
                if encoding != Encoding::Utf8 {
                    Some(FailedCheck::DeclaredEncoding)
                } else if !valid_utf8(bytes@) {
                    Some(FailedCheck::ContentValidity)
                } else if bytes@.contains(0u8) {
                    Some(FailedCheck::EmbeddedTerminator)
                } else {
                    None
                }
            },
        }
    }

    /// The bytes of a string of the host.
    pub open spec fn bytes_of(self) -> Seq<u8>
        recommends
            self is Text,
    {
        self->bytes@
    }

    /// The code points that the bytes of a valid value encode.
    pub open spec fn text_of(self) -> Seq<char>
        recommends
            self.first_failed_check() is None,
    {
        decode_utf8(self.bytes_of())
    }
}

/// Certifies that `value` is a string of well-formed UTF-8 without a zero
/// byte, and hands out its bytes as text, or says which check it failed
/// first.
pub fn ensure_valid_utf8<'a>(value: &HostValue<'a>) -> (text: Result<&'a str, FailedCheck>)
    ensures
        match value.first_failed_check() {
            Some(failed) => text == Err::<&str, FailedCheck>(failed),
            None => text matches Ok(s) && s.spec_bytes() == value.bytes_of() && s@
                == value.text_of(),
        },
{
    match value {
        HostValue::NotText => Err(FailedCheck::Type),
        HostValue::Text { encoding, bytes } => {
            if *encoding != Encoding::Utf8 {
                return Err(FailedCheck::DeclaredEncoding);
            }
            if !is_valid_encoding(bytes) {
                return Err(FailedCheck::ContentValidity);
            }
            value_to_str(bytes)
        },
    }
}

} // verus!
