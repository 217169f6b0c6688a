//! The call as the host makes it: two values in, a distance or a refusal
//! out.

use vstd::prelude::*;
use vstd::utf8::valid_utf8;
use crate::engine::distance;
use crate::error::{Argument, DistanceError, ErrorKind, FailedCheck};
use crate::laws::lemma_distance_symmetric;
use crate::metric::edit_distance;
use crate::validate::{ensure_valid_utf8, Encoding, HostValue};

verus! {

/// What a call with these two values comes to. The first argument is
/// validated before the second, and the first failure is the one reported;
/// only two valid arguments have a distance.
pub open spec fn call_outcome(first: HostValue, second: HostValue) -> Result<nat, DistanceError> {
    match first.first_failed_check() {
        Some(failed) => Err(DistanceError { argument: Argument::First, failed }),
        None => match second.first_failed_check() {
            Some(failed) => Err(DistanceError { argument: Argument::Second, failed }),
            None => Ok(edit_distance(first.text_of(), second.text_of())),
        },
    }
}

/// Validates both arguments, the first one first, and computes the edit
/// distance between their texts. Nothing is computed when an argument is
/// refused.
pub fn distance_ruby(s1: &HostValue, s2: &HostValue) -> (result: Result<usize, DistanceError>)
    ensures
        match call_outcome(*s1, *s2) {
            Ok(d) => result matches Ok(n) && n == d,
            Err(error) => result == Err::<usize, DistanceError>(error),
        },
{
    let s1 = match ensure_valid_utf8(s1) {
        Ok(text) => text,
        Err(failed) => {
            return Err(DistanceError { argument: Argument::First, failed });
        },
    };
    let s2 = match ensure_valid_utf8(s2) {
        Ok(text) => text,
        Err(failed) => {
            return Err(DistanceError { argument: Argument::Second, failed });
        },
    };
    Ok(distance(s1, s2))
}

/// A call in which either argument fails a check has no distance.
pub proof fn lemma_refused_argument_gives_no_distance(first: HostValue, second: HostValue)
    requires
        first.first_failed_check() is Some || second.first_failed_check() is Some,
    ensures
        call_outcome(first, second) is Err,
{
}

/// A string whose bytes are not well-formed UTF-8 is refused, and the
/// refusal is reported as an invalid encoding.
pub proof fn lemma_malformed_utf8_is_invalid_encoding(value: HostValue)
    requires
        value is Text,
        !valid_utf8(value.bytes_of()),
    ensures
        value.first_failed_check() matches Some(failed) && failed.kind_of()
            == ErrorKind::InvalidEncoding,
{
}

/// A string that holds a zero byte is never accepted, so no distance is
/// ever computed on the part of it before that byte; where it passes every
/// other check, the refusal is reported as an embedded NUL.
pub proof fn lemma_zero_byte_is_refused(value: HostValue)
    requires
        value is Text,
        value.bytes_of().contains(0u8),
    ensures
        value.first_failed_check() is Some,
        value->encoding == Encoding::Utf8 && valid_utf8(value.bytes_of())
            ==> value.first_failed_check() == Some(FailedCheck::EmbeddedTerminator)
            && FailedCheck::EmbeddedTerminator.kind_of() == ErrorKind::EmbeddedNul,
{
}

/// With two valid arguments, the result of a call does not depend on which
/// of them is passed first.
pub proof fn lemma_argument_order_is_irrelevant(first: HostValue, second: HostValue)
    requires
        first.first_failed_check() is None,
        second.first_failed_check() is None,
    ensures
        call_outcome(first, second) == call_outcome(second, first),
{
    lemma_distance_symmetric(first.text_of(), second.text_of());
}

} // verus!
