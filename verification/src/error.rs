//! How a call can fail: which argument was refused, at which check, and how
//! that failure is classified and worded.

use vstd::prelude::*;
use vstd::string::StringExecFns;

verus! {

/// The kinds of failure that a caller can be told of.
#[derive(Clone, Copy, Debug, PartialEq, Eq, Structural)]
pub enum ErrorKind {
    /// The argument is not a textual value.
    WrongType,
    /// The argument is textual, but it is not declared as UTF-8 or its bytes
    /// are not well-formed UTF-8.
    InvalidEncoding,
    /// The argument holds a zero byte, at which a terminated reading of it
    /// would stop short.
    EmbeddedNul,
}

/// The checks that an argument has to pass, in the order in which they are
/// made.
#[derive(Clone, Copy, Debug, PartialEq, Eq, Structural)]
pub enum FailedCheck {
    /// The value is not a string of the host.
    Type,
    /// The host tags the string with an encoding other than UTF-8.
    DeclaredEncoding,
    /// The bytes of the string are not well-formed UTF-8.
    ContentValidity,
    /// The bytes of the string hold a zero byte.
    EmbeddedTerminator,
}

/// Which of the two arguments of a call is meant.
#[derive(Clone, Copy, Debug, PartialEq, Eq, Structural)]
pub enum Argument {
    First,
    Second,
}

/// A refused call: the argument that was refused and the check it failed.
#[derive(Clone, Copy, Debug, PartialEq, Eq, Structural)]
pub struct DistanceError {
    pub argument: Argument,
    pub failed: FailedCheck,
}

impl FailedCheck {
    /// The kind under which a failure of this check is reported.
    pub open spec fn kind_of(self) -> ErrorKind {
        match self {
            FailedCheck::Type => ErrorKind::WrongType,
            FailedCheck::DeclaredEncoding => ErrorKind::InvalidEncoding,
            FailedCheck::ContentValidity => ErrorKind::InvalidEncoding,
            FailedCheck::EmbeddedTerminator => ErrorKind::EmbeddedNul,
        }
    }

    /// The words for a failure of this check.
    pub open spec fn reason_of(self) -> Seq<char> {
        match self {
            FailedCheck::Type => "Expected a String"@,
            FailedCheck::DeclaredEncoding => "Expected UTF-8 encoding"@,
            FailedCheck::ContentValidity => "Invalid UTF-8 in byte sequence"@,
            FailedCheck::EmbeddedTerminator => "String contains embedded NUL bytes"@,
        }
    }

    /// The kind under which a failure of this check is reported.
    pub fn kind(&self) -> (kind: ErrorKind)
        ensures
            kind == self.kind_of(),
    {
        match self {
            FailedCheck::Type => ErrorKind::WrongType,
            FailedCheck::DeclaredEncoding => ErrorKind::InvalidEncoding,
            FailedCheck::ContentValidity => ErrorKind::InvalidEncoding,
            FailedCheck::EmbeddedTerminator => ErrorKind::EmbeddedNul,
        }
    }

    /// The words for a failure of this check.
    pub fn reason(&self) -> (reason: &'static str)
        ensures
            reason@ == self.reason_of(),
    {
        match self {
            FailedCheck::Type => "Expected a String",
            FailedCheck::DeclaredEncoding => "Expected UTF-8 encoding",
            FailedCheck::ContentValidity => "Invalid UTF-8 in byte sequence",
            FailedCheck::EmbeddedTerminator => "String contains embedded NUL bytes",
        }
    }
}

impl Argument {
    /// The words that name this argument.
    pub open spec fn label_of(self) -> Seq<char> {
        match self {
            Argument::First => "first argument"@,
            Argument::Second => "second argument"@,
        }
    }

    /// The words that name this argument.
    pub fn label(&self) -> (label: &'static str)
        ensures
            label@ == self.label_of(),
    {
        match self {
            Argument::First => "first argument",
            Argument::Second => "second argument",
        }
    }
}

impl DistanceError {
    /// The message of this error: the argument, a colon, and the reason.
    pub open spec fn message_of(self) -> Seq<char> {
        self.argument.label_of() + ": "@ + self.failed.reason_of()
    }

    /// The kind under which this error is reported.
    pub fn kind(&self) -> (kind: ErrorKind)
        ensures
            kind == self.failed.kind_of(),
    {
        self.failed.kind()
    }

    /// A message for the caller, which names the argument that was refused
    /// and the check that it failed.
    pub fn message(&self) -> (message: String)
        ensures
            message@ == self.message_of(),
    {
        let mut message = String::from_str(self.argument.label());
        message.append(": ");
        message.append(self.failed.reason());
        message
    }
}

} // verus!
