//! The error types surfaced by parsing and range evaluation.

use vstd::prelude::*;

verus! {

/// A violation of the version grammar, named after the rule that was broken.
#[derive(Debug, PartialEq, Eq, Structural, Clone, Copy)]
pub enum ParseError {
    /// A numeric component could not be read: no digits were present, or the
    /// digit run does not fit in 64 bits.
    NotAVersion,
    /// Characters remained after a fully parsed version.
    ExtraInput,
    /// A `.` separator was required but absent.
    ExpectedDot,
    /// A numeric component of more than one digit began with `0`.
    LeadingZero,
    /// The input was empty.
    EmptyString,
    /// A range component was expected to be a wildcard marker but was not.
    ExpectedWildcard,
    /// The pre-release suffix violated its identifier grammar.
    InvalidPrerelease,
}

/// Failure to read an operator prefix from a range string. Reserved for a
/// strict operator-parsing entry point; the permissive [`crate::satisfies`]
/// falls back to the caret operator instead of producing it.
#[derive(Debug, PartialEq, Eq, Structural, Clone, Copy)]
pub enum ParseRangeError {
    MalformedOperation,
}

/// Any failure of range evaluation: a component of the version or the range
/// failed to parse, or the operator was malformed.
#[derive(Debug, PartialEq, Eq, Structural, Clone, Copy)]
pub enum Error {
    ParseError(ParseError),
    ParseRangeError(ParseRangeError),
}

impl From<ParseError> for Error {
    fn from(error: ParseError) -> (r: Error) {
        Error::ParseError(error)
    }
}

impl vstd::std_specs::convert::FromSpecImpl<ParseError> for Error {
    open spec fn obeys_from_spec() -> bool {
        true
    }

    open spec fn from_spec(error: ParseError) -> Error {
        Error::ParseError(error)
    }
}

impl From<ParseRangeError> for Error {
    fn from(error: ParseRangeError) -> (r: Error) {
        Error::ParseRangeError(error)
    }
}

impl vstd::std_specs::convert::FromSpecImpl<ParseRangeError> for Error {
    open spec fn obeys_from_spec() -> bool {
        true
    }

    open spec fn from_spec(error: ParseRangeError) -> Error {
        Error::ParseRangeError(error)
    }
}

} // verus!
