//! The strict version grammar: `number "." number "." number` with an
//! optional pre-release suffix, and nothing left over.

use vstd::prelude::*;

use crate::errors::ParseError;
use crate::num::digits_end;
use crate::num::num_error;
use crate::num::num_ok;
use crate::num::num_value;
use crate::num::parse_number;
use crate::prerelease::parse_prerelease;
use crate::prerelease::spec_parse_prerelease;

verus! {

/// A parsed version: three non-negative numeric components. The pre-release
/// suffix, if one was present, is validated and discarded.
#[derive(Debug, PartialEq, Eq, Structural, Clone, Copy)]
pub struct Version {
    pub major: u64,
    pub minor: u64,
    pub patch: u64,
}

/// What parsing the character sequence `s` as a version yields: the three
/// numeric components, or the error raised by the first grammar rule broken.
pub open spec fn spec_parse(s: Seq<char>) -> Result<Version, ParseError> {
    if s.len() == 0 {
        Err(ParseError::EmptyString)
    } else if !num_ok(s, 0) {
        Err(num_error(s, 0))
    } else {
        let j1 = digits_end(s, 0);
        if !(j1 < s.len() && s[j1] == '.') {
            Err(ParseError::ExpectedDot)
        } else if !num_ok(s, j1 + 1) {
            Err(num_error(s, j1 + 1))
        } else {
            let j2 = digits_end(s, j1 + 1);
            if !(j2 < s.len() && s[j2] == '.') {
                Err(ParseError::ExpectedDot)
            } else if !num_ok(s, j2 + 1) {
                Err(num_error(s, j2 + 1))
            } else {
                let j3 = digits_end(s, j2 + 1);
                match spec_parse_prerelease(s, j3) {
                    Err(e) => Err(e),
                    Ok(j4) => {
                        if j4 < s.len() {
                            Err(ParseError::ExtraInput)
                        } else {
                            Ok(
                                Version {
                                    major: num_value(s, 0, j1) as u64,
                                    minor: num_value(s, j1 + 1, j2) as u64,
                                    patch: num_value(s, j2 + 1, j3) as u64,
                                },
                            )
                        }
                    },
                }
            }
        }
    }
}

/// Reads the `.` separator that must stand at position `i` of `s`, returning
/// the position just past it.
pub fn parse_dot(s: &str, n: usize, i: usize) -> (r: Result<usize, ParseError>)
    requires
        n == s@.len(),
        i <= n,
    ensures
        match r {
            Ok(j) => j == i + 1 && i < n && s@[i as int] == '.',
            Err(e) => e == ParseError::ExpectedDot && !(i < n && s@[i as int] == '.'),
        },
{
    if i < n && s.get_char(i) == '.' {
        Ok(i + 1)
    } else {
        Err(ParseError::ExpectedDot)
    }
}

/// Validates `input` against the strict version grammar and returns its three
/// numeric components, or the error raised by the first grammar rule broken.
pub fn parse(input: &str) -> (r: Result<Version, ParseError>)
    ensures
        r == spec_parse(input@),
{
    let n = input.unicode_len();
    if n == 0 {
        return Err(ParseError::EmptyString);
    }
    let (major, p1) = match parse_number(input, n, 0) {
        Ok(t) => t,
        Err(e) => {
            return Err(e);
        },
    };
    let p1 = match parse_dot(input, n, p1) {
        Ok(j) => j,
        Err(e) => {
            return Err(e);
        },
    };
    let (minor, p2) = match parse_number(input, n, p1) {
        Ok(t) => t,
        Err(e) => {
            return Err(e);
        },
    };
    let p2 = match parse_dot(input, n, p2) {
        Ok(j) => j,
        Err(e) => {
            return Err(e);
        },
    };
    let (patch, p3) = match parse_number(input, n, p2) {
        Ok(t) => t,
        Err(e) => {
            return Err(e);
        },
    };
    let p4 = match parse_prerelease(input, n, p3) {
        Ok(j) => j,
        Err(e) => {
            return Err(e);
        },
    };
    if p4 < n {
        return Err(ParseError::ExtraInput);
    }
    Ok(Version { major, minor, patch })
}

} // verus!
