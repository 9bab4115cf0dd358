//! The pre-release suffix grammar: dot-separated identifiers of ASCII
//! alphanumerics and hyphens, none empty, with purely numeric identifiers
//! subject to the leading-zero rule.

use vstd::prelude::*;

use crate::errors::ParseError;
use crate::num::is_digit;

verus! {

/// `c` may appear in a pre-release suffix.
pub open spec fn is_prerelease_char(c: char) -> bool {
    ||| is_digit(c)
    ||| ('A' <= c && c <= 'Z')
    ||| ('a' <= c && c <= 'z')
    ||| c == '-'
    ||| c == '.'
}

/// `[a, b)` spans exactly one identifier of `t`: it runs from one identifier
/// boundary (the start of `t`, or just after a `.`) to the next (the end of
/// `t`, or just before a `.`), with no `.` inside.
pub open spec fn is_identifier_range(t: Seq<char>, a: int, b: int) -> bool {
    &&& 0 <= a <= b <= t.len()
    &&& (a == 0 || t[a - 1] == '.')
    &&& (b == t.len() || t[b] == '.')
    &&& (forall|k: int| a <= k < b ==> t[k] != '.')
}

/// Every character of `t[a..b)` is a decimal digit.
pub open spec fn all_digits(t: Seq<char>, a: int, b: int) -> bool {
    forall|k: int| a <= k < b ==> is_digit(t[k])
}

/// The identifier `t[a..b)` is admissible: non-empty, and if it consists
/// solely of digits and is longer than one character, it does not begin
/// with `0`.
pub open spec fn identifier_ok(t: Seq<char>, a: int, b: int) -> bool {
    &&& a < b
    &&& (all_digits(t, a, b) && b - a > 1 ==> t[a] != '0')
}

/// `t` is a well-formed pre-release suffix (the text after the leading `-`):
/// non-empty, every character admissible, and every identifier admissible.
pub open spec fn valid_prerelease(t: Seq<char>) -> bool {
    &&& t.len() > 0
    &&& (forall|k: int| 0 <= k < t.len() ==> is_prerelease_char(#[trigger] t[k]))
    &&& (forall|a: int, b: int| #[trigger] is_identifier_range(t, a, b) ==> identifier_ok(t, a, b))
}

/// Within a region that holds no `.`, only one identifier range can end at a
/// given boundary: any identifier range of `t` that ends at `b`, where no `.`
/// stands in `[start, b)`, begins at `start`.
proof fn lemma_identifier_start(t: Seq<char>, start: int, a: int, b: int)
    requires
        0 <= start <= b,
        start == 0 || t[start - 1] == '.',
        forall|k: int| start <= k < b ==> t[k] != '.',
        is_identifier_range(t, a, b),
    ensures
        a == start,
{
    if a < start {
        assert(t[start - 1] == '.');
    } else if a > start {
        assert(t[a - 1] == '.');
    }
}

/// `c` may appear in a pre-release suffix.
fn prerelease_char(c: char) -> (b: bool)
    ensures
        b == is_prerelease_char(c),
{
    ('0' <= c && c <= '9') || ('A' <= c && c <= 'Z') || ('a' <= c && c <= 'z') || c == '-'
        || c == '.'
}

/// Decides whether `t` is a well-formed pre-release suffix, scanning its
/// characters once and checking each identifier at the `.` (or the end) that
/// closes it.
pub fn check_prerelease(t: &str, n: usize) -> (b: bool)
    requires
        n == t@.len(),
    ensures
        b == valid_prerelease(t@),
{
    if n == 0 {
        return false;
    }
    let mut k: usize = 0;
    let mut ident_start: usize = 0;
    let mut digits_only: bool = true;
    while k < n
        invariant
            ident_start <= k <= n,
            n == t@.len(),
            forall|x: int| 0 <= x < k ==> is_prerelease_char(#[trigger] t@[x]),
            ident_start == 0 || t@[ident_start - 1] == '.',
            forall|x: int| ident_start <= x < k ==> t@[x] != '.',
            digits_only == all_digits(t@, ident_start as int, k as int),
            forall|a: int, b: int|
                #[trigger] is_identifier_range(t@, a, b) && b < k ==> identifier_ok(t@, a, b),
        decreases n - k,
    {
        let c = t.get_char(k);
        if !prerelease_char(c) {
            return false;
        }
        if c == '.' {
            if k == ident_start {
                proof {
                    assert(is_identifier_range(t@, ident_start as int, k as int));
                }
                return false;
            }
            if digits_only && k - ident_start > 1 && t.get_char(ident_start) == '0' {
                proof {
                    assert(is_identifier_range(t@, ident_start as int, k as int));
                    assert(!identifier_ok(t@, ident_start as int, k as int));
                }
                return false;
            }
            proof {
                assert forall|a: int, b: int|
                    #[trigger] is_identifier_range(t@, a, b) && b < k + 1 implies identifier_ok(
                    t@,
                    a,
                    b,
                ) by {
                    if b == k {
                        lemma_identifier_start(t@, ident_start as int, a, b);
                    }
                }
            }
            ident_start = k + 1;
            digits_only = true;
        } else {
            digits_only = digits_only && '0' <= c && c <= '9';
            proof {
                assert(digits_only == all_digits(t@, ident_start as int, k as int + 1)) by {
                    if digits_only {
                        assert forall|x: int| ident_start <= x < k + 1 implies is_digit(
                            t@[x],
                        ) by {}
                    }
                }
                assert forall|a: int, b: int|
                    #[trigger] is_identifier_range(t@, a, b) && b < k + 1 implies identifier_ok(
                    t@,
                    a,
                    b,
                ) by {
                    if b == k {
                        assert(t@[b] != '.');
                    }
                }
            }
        }
        k = k + 1;
    }
    if n == ident_start {
        proof {
            assert(is_identifier_range(t@, ident_start as int, n as int));
        }
        return false;
    }
    if digits_only && n - ident_start > 1 && t.get_char(ident_start) == '0' {
        proof {
            assert(is_identifier_range(t@, ident_start as int, n as int));
            assert(!identifier_ok(t@, ident_start as int, n as int));
        }
        return false;
    }
    proof {
        assert forall|a: int, b: int| #[trigger] is_identifier_range(t@, a, b) implies identifier_ok(
            t@,
            a,
            b,
        ) by {
            if b == n {
                lemma_identifier_start(t@, ident_start as int, a, b);
            }
        }
    }
    true
}

/// Reads the optional pre-release suffix of `s` that may stand at position
/// `i`: nothing, in which case `i` itself comes back, or a `-` followed by a
/// well-formed suffix reaching the end of `s`.
pub open spec fn spec_parse_prerelease(s: Seq<char>, i: int) -> Result<int, ParseError> {
    if i == s.len() || s[i] != '-' {
        Ok(i)
    } else if valid_prerelease(s.subrange(i + 1, s.len() as int)) {
        Ok(s.len() as int)
    } else {
        Err(ParseError::InvalidPrerelease)
    }
}

/// Reads the optional pre-release suffix of `s` at position `i`, returning
/// the position just past it. The suffix itself is validated and discarded.
pub fn parse_prerelease(s: &str, n: usize, i: usize) -> (r: Result<usize, ParseError>)
    requires
        n == s@.len(),
        i <= n,
    ensures
        match r {
            Ok(j) => j <= n && spec_parse_prerelease(s@, i as int) == Ok::<int, ParseError>(
                j as int,
            ),
            Err(e) => spec_parse_prerelease(s@, i as int) == Err::<int, ParseError>(e),
        },
{
    if i == n {
        return Ok(i);
    }
    if s.get_char(i) != '-' {
        return Ok(i);
    }
    let tail = s.substring_char(i + 1, n);
    if check_prerelease(tail, n - (i + 1)) {
        Ok(n)
    } else {
        Err(ParseError::InvalidPrerelease)
    }
}

} // verus!
