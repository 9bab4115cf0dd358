//! The range evaluator: an operator prefix read from the range string, then
//! the version's and the range's numeric components compared in lockstep,
//! with operator-specific acceptance and rejection at each component and
//! wildcard acceptance wherever a range component is written as `*`.

use vstd::prelude::*;

use crate::errors::Error;
use crate::errors::ParseError;
use crate::num::digits_end;
use crate::num::num_error;
use crate::num::num_ok;
use crate::num::num_value;
use crate::num::parse_number;

verus! {

/// A range operator, read from the first one or two characters of a range
/// string.
#[derive(Debug, PartialEq, Eq, Structural, Clone, Copy)]
pub enum Operation {
    Caret,
    Eq,
    Tilde,
    Wildcard,
    GreaterThan,
    GreaterThanEqual,
    LessThan,
    LessThanEqual,
}

/// The operator prefix of `r` and the number of characters it occupies, or
/// nothing when `r` starts with no recognized operator.
pub open spec fn spec_parse_op(r: Seq<char>) -> Option<(Operation, int)> {
    if r.len() == 0 {
        None
    } else if r[0] == '^' {
        Some((Operation::Caret, 1))
    } else if r[0] == '=' {
        Some((Operation::Eq, 1))
    } else if r[0] == '~' {
        Some((Operation::Tilde, 1))
    } else if r[0] == '*' {
        Some((Operation::Wildcard, 1))
    } else if r[0] == '>' {
        if r.len() >= 2 && r[1] == '=' {
            Some((Operation::GreaterThanEqual, 2))
        } else {
            Some((Operation::GreaterThan, 1))
        }
    } else if r[0] == '<' {
        if r.len() >= 2 && r[1] == '=' {
            Some((Operation::LessThanEqual, 2))
        } else {
            Some((Operation::LessThan, 1))
        }
    } else {
        None
    }
}

/// What an operator decides at the major or the minor component, given the
/// version's value `v` and the range's value `r` there: an immediate outcome,
/// or nothing, in which case evaluation moves to the next component. The
/// caret operator requires an exact match at the major component but only a
/// lower bound at the minor one; the ordering operators decide on a strict
/// inequality and move on only when the values are equal.
pub open spec fn rule_mid(op: Operation, major: bool, v: int, r: int) -> Option<bool> {
    match op {
        Operation::Eq => if v != r {
            Some(false)
        } else {
            None
        },
        Operation::Tilde => if v != r {
            Some(false)
        } else {
            None
        },
        Operation::Caret => if major {
            if v != r {
                Some(false)
            } else {
                None
            }
        } else {
            if v < r {
                Some(false)
            } else {
                None
            }
        },
        Operation::GreaterThan | Operation::GreaterThanEqual => if v > r {
            Some(true)
        } else if v == r {
            None
        } else {
            Some(false)
        },
        Operation::LessThan | Operation::LessThanEqual => if v < r {
            Some(true)
        } else if v == r {
            None
        } else {
            Some(false)
        },
        Operation::Wildcard => None,
    }
}

/// What an operator decides at the patch component, given the version's value
/// `v` and the range's value `r` there.
pub open spec fn rule_patch(op: Operation, v: int, r: int) -> bool {
    match op {
        Operation::Eq => v == r,
        Operation::Caret => v >= r,
        Operation::Tilde => v >= r,
        Operation::GreaterThan => v > r,
        Operation::GreaterThanEqual => v >= r,
        Operation::LessThan => v < r,
        Operation::LessThanEqual => v <= r,
        Operation::Wildcard => true,
    }
}

/// The outcome of reading one component from the version and from the range
/// in lockstep: a decisive result, or the two values with the positions just
/// past them.
pub enum ComponentOutcome {
    /// Evaluation fails with an error.
    Fail(Error),
    /// Evaluation ends with this answer.
    Done(bool),
    /// Both components were read; evaluation continues.
    Next { v: int, vnext: int, r: int, rnext: int },
}

/// Reads one component from the version `v` at position `vi` and from the
/// range `r` at position `ri`. The version's component must parse, and a `.`
/// must follow it when `dotted`; the range's component may instead open with
/// a `*`, which satisfies the range outright, and any other failure on the
/// range side propagates the underlying error.
pub open spec fn spec_component(
    v: Seq<char>,
    vi: int,
    r: Seq<char>,
    ri: int,
    dotted: bool,
) -> ComponentOutcome {
    if !num_ok(v, vi) {
        ComponentOutcome::Fail(Error::ParseError(num_error(v, vi)))
    } else {
        let vj = digits_end(v, vi);
        if dotted && !(vj < v.len() && v[vj] == '.') {
            ComponentOutcome::Fail(Error::ParseError(ParseError::ExpectedDot))
        } else if !num_ok(r, ri) {
            if ri < r.len() && r[ri] == '*' {
                ComponentOutcome::Done(true)
            } else {
                ComponentOutcome::Fail(Error::ParseError(num_error(r, ri)))
            }
        } else {
            let rj = digits_end(r, ri);
            if dotted && !(rj < r.len() && r[rj] == '.') {
                ComponentOutcome::Fail(Error::ParseError(ParseError::ExpectedDot))
            } else {
                ComponentOutcome::Next {
                    v: num_value(v, vi, vj),
                    vnext: if dotted {
                        vj + 1
                    } else {
                        vj
                    },
                    r: num_value(r, ri, rj),
                    rnext: if dotted {
                        rj + 1
                    } else {
                        rj
                    },
                }
            }
        }
    }
}

/// Whether the version `v` satisfies the range `r`: the operator prefix is
/// read (an unrecognized prefix falls back to the caret operator); a bare
/// wildcard range satisfies everything; otherwise the major, minor and patch
/// components are read and compared in lockstep, each comparison either
/// deciding the answer or moving to the next component.
pub open spec fn spec_satisfies(v: Seq<char>, r: Seq<char>) -> Result<bool, Error> {
    let parsed = spec_parse_op(r);
    let op = if parsed is Some {
        parsed->Some_0.0
    } else {
        Operation::Caret
    };
    let start = if parsed is Some {
        parsed->Some_0.1
    } else {
        0
    };
    if op == Operation::Wildcard {
        Ok(true)
    } else {
        match spec_component(v, 0, r, start, true) {
            ComponentOutcome::Fail(e) => Err(e),
            ComponentOutcome::Done(b) => Ok(b),
            ComponentOutcome::Next { v: v1, vnext: vi1, r: r1, rnext: ri1 } => match rule_mid(
                op,
                true,
                v1,
                r1,
            ) {
                Some(b) => Ok(b),
                None => match spec_component(v, vi1, r, ri1, true) {
                    ComponentOutcome::Fail(e) => Err(e),
                    ComponentOutcome::Done(b) => Ok(b),
                    ComponentOutcome::Next { v: v2, vnext: vi2, r: r2, rnext: ri2 } => match rule_mid(
                        op,
                        false,
                        v2,
                        r2,
                    ) {
                        Some(b) => Ok(b),
                        None => match spec_component(v, vi2, r, ri2, false) {
                            ComponentOutcome::Fail(e) => Err(e),
                            ComponentOutcome::Done(b) => Ok(b),
                            ComponentOutcome::Next { v: v3, vnext: _, r: r3, rnext: _ } => Ok(
                                rule_patch(op, v3, r3),
                            ),
                        },
                    },
                },
            },
        }
    }
}

/// Reads the operator prefix of `r`, returning it with the position just past
/// it, or nothing when no recognized operator stands there.
pub fn parse_op(r: &str, n: usize) -> (res: Option<(Operation, usize)>)
    requires
        n == r@.len(),
    ensures
        match res {
            Some(t) => t.1 <= n && spec_parse_op(r@) == Some((t.0, t.1 as int)),
            None => spec_parse_op(r@) == None::<(Operation, int)>,
        },
{
    if n == 0 {
        return None;
    }
    let c = r.get_char(0);
    if c == '^' {
        Some((Operation::Caret, 1))
    } else if c == '=' {
        Some((Operation::Eq, 1))
    } else if c == '~' {
        Some((Operation::Tilde, 1))
    } else if c == '*' {
        Some((Operation::Wildcard, 1))
    } else if c == '>' {
        if n >= 2 && r.get_char(1) == '=' {
            Some((Operation::GreaterThanEqual, 2))
        } else {
            Some((Operation::GreaterThan, 1))
        }
    } else if c == '<' {
        if n >= 2 && r.get_char(1) == '=' {
            Some((Operation::LessThanEqual, 2))
        } else {
            Some((Operation::LessThan, 1))
        }
    } else {
        None
    }
}

/// Reads the wildcard marker that may stand at position `i` of `s`,
/// returning the position just past it.
fn parse_wildcard(s: &str, n: usize, i: usize) -> (r: Result<usize, ParseError>)
    requires
        n == s@.len(),
        i <= n,
    ensures
        match r {
            Ok(j) => j == i + 1 && i < n && s@[i as int] == '*',
            Err(e) => e == ParseError::ExpectedWildcard && !(i < n && s@[i as int] == '*'),
        },
{
    if i < n && s.get_char(i) == '*' {
        Ok(i + 1)
    } else {
        Err(ParseError::ExpectedWildcard)
    }
}

/// The outcome of reading one component pair, with the values and positions
/// as machine integers.
enum StepResult {
    Fail(Error),
    Done(bool),
    Next { v: u64, vnext: usize, r: u64, rnext: usize },
}

/// Reads one component from the version and from the range in lockstep, as
/// [`spec_component`] describes.
fn eval_component(
    version: &str,
    vn: usize,
    vi: usize,
    range: &str,
    rn: usize,
    ri: usize,
    dotted: bool,
) -> (res: StepResult)
    requires
        vn == version@.len(),
        vi <= vn,
        rn == range@.len(),
        ri <= rn,
    ensures
        match res {
            StepResult::Fail(e) => spec_component(version@, vi as int, range@, ri as int, dotted)
                == ComponentOutcome::Fail(e),
            StepResult::Done(b) => spec_component(version@, vi as int, range@, ri as int, dotted)
                == ComponentOutcome::Done(b),
            StepResult::Next { v, vnext, r, rnext } => {
                &&& vnext <= vn
                &&& rnext <= rn
                &&& spec_component(version@, vi as int, range@, ri as int, dotted)
                    == (ComponentOutcome::Next {
                    v: v as int,
                    vnext: vnext as int,
                    r: r as int,
                    rnext: rnext as int,
                })
            },
        },
{
    let (vval, vj) = match parse_number(version, vn, vi) {
        Ok(t) => t,
        Err(e) => {
            return StepResult::Fail(Error::ParseError(e));
        },
    };
    let vnext = if dotted {
        if !(vj < vn && version.get_char(vj) == '.') {
            return StepResult::Fail(Error::ParseError(ParseError::ExpectedDot));
        }
        vj + 1
    } else {
        vj
    };
    let (rval, rj) = match parse_number(range, rn, ri) {
        Ok(t) => t,
        Err(e) => {
            if parse_wildcard(range, rn, ri).is_ok() {
                return StepResult::Done(true);
            }
            return StepResult::Fail(Error::ParseError(e));
        },
    };
    let rnext = if dotted {
        if !(rj < rn && range.get_char(rj) == '.') {
            return StepResult::Fail(Error::ParseError(ParseError::ExpectedDot));
        }
        rj + 1
    } else {
        rj
    };
    StepResult::Next { v: vval, vnext, r: rval, rnext }
}

/// What the operator decides at the major or the minor component, as
/// [`rule_mid`] describes.
fn apply_rule_mid(op: Operation, major: bool, v: u64, r: u64) -> (res: Option<bool>)
    ensures
        res == rule_mid(op, major, v as int, r as int),
{
    match op {
        Operation::Eq | Operation::Tilde => if v != r {
            Some(false)
        } else {
            None
        },
        Operation::Caret => if major {
            if v != r {
                Some(false)
            } else {
                None
            }
        } else {
            if v < r {
                Some(false)
            } else {
                None
            }
        },
        Operation::GreaterThan | Operation::GreaterThanEqual => if v > r {
            Some(true)
        } else if v == r {
            None
        } else {
            Some(false)
        },
        Operation::LessThan | Operation::LessThanEqual => if v < r {
            Some(true)
        } else if v == r {
            None
        } else {
            Some(false)
        },
        Operation::Wildcard => None,
    }
}

/// What the operator decides at the patch component, as [`rule_patch`]
/// describes.
fn apply_rule_patch(op: Operation, v: u64, r: u64) -> (res: bool)
    ensures
        res == rule_patch(op, v as int, r as int),
{
    match op {
        Operation::Eq => v == r,
        Operation::Caret | Operation::Tilde | Operation::GreaterThanEqual => v >= r,
        Operation::GreaterThan => v > r,
        Operation::LessThan => v < r,
        Operation::LessThanEqual => v <= r,
        Operation::Wildcard => true,
    }
}

/// Evaluates whether `version` matches the constraint expressed by `range`,
/// as [`spec_satisfies`] describes. An unrecognized operator prefix falls
/// back to the caret operator; the version's components must always parse,
/// while a range component written as `*` satisfies the range outright.
pub fn satisfies(version: &str, range: &str) -> (res: Result<bool, Error>)
    ensures
        res == spec_satisfies(version@, range@),
{
    let vn = version.unicode_len();
    let rn = range.unicode_len();
    let (op, start) = match parse_op(range, rn) {
        Some(t) => t,
        None => (Operation::Caret, 0),
    };
    if op == Operation::Wildcard {
        return Ok(true);
    }
    let (v1, vi1, r1, ri1) = match eval_component(version, vn, 0, range, rn, start, true) {
        StepResult::Fail(e) => {
            return Err(e);
        },
        StepResult::Done(b) => {
            return Ok(b);
        },
        StepResult::Next { v, vnext, r, rnext } => (v, vnext, r, rnext),
    };
    if let Some(b) = apply_rule_mid(op, true, v1, r1) {
        return Ok(b);
    }
    let (v2, vi2, r2, ri2) = match eval_component(version, vn, vi1, range, rn, ri1, true) {
        StepResult::Fail(e) => {
            return Err(e);
        },
        StepResult::Done(b) => {
            return Ok(b);
        },
        StepResult::Next { v, vnext, r, rnext } => (v, vnext, r, rnext),
    };
    if let Some(b) = apply_rule_mid(op, false, v2, r2) {
        return Ok(b);
    }
    let (v3, r3) = match eval_component(version, vn, vi2, range, rn, ri2, false) {
        StepResult::Fail(e) => {
            return Err(e);
        },
        StepResult::Done(b) => {
            return Ok(b);
        },
        StepResult::Next { v, vnext: _, r, rnext: _ } => (v, r),
    };
    Ok(apply_rule_patch(op, v3, r3))
}

} // verus!
