//! The numeric-component parser and its specification: a maximal run of ASCII
//! digits, read as an unsigned 64-bit integer under a strict leading-zero
//! rule.

use vstd::prelude::*;

use crate::errors::ParseError;

verus! {

/// `c` is an ASCII decimal digit.
pub open spec fn is_digit(c: char) -> bool {
    '0' <= c && c <= '9'
}

/// The numeric value of a digit character.
pub open spec fn digit_val(c: char) -> int {
    c as u32 - '0' as u32
}

/// The position just past the maximal digit run of `s` that starts at
/// position `i`.
pub open spec fn digits_end(s: Seq<char>, i: int) -> int
    decreases s.len() - i,
{
    if 0 <= i < s.len() && is_digit(s[i]) {
        digits_end(s, i + 1)
    } else {
        i
    }
}

/// The value of the digit run `s[i..j)` read as a decimal number.
pub open spec fn num_value(s: Seq<char>, i: int, j: int) -> int
    decreases j - i,
{
    if i < j {
        num_value(s, i, j - 1) * 10 + digit_val(s[j - 1])
    } else {
        0
    }
}

/// A numeric component can be read at position `i` of `s`: at least one
/// digit stands there, a run of several digits does not begin with `0`, and
/// the value fits in 64 bits.
pub open spec fn num_ok(s: Seq<char>, i: int) -> bool {
    let j = digits_end(s, i);
    &&& j > i
    &&& (s[i] == '0' ==> j == i + 1)
    &&& num_value(s, i, j) <= u64::MAX
}

/// The error reported when no numeric component can be read at position `i`:
/// `LeadingZero` when a run of two or more digits begins with `0`, otherwise
/// `NotAVersion` (no digits at all, or a value too large for 64 bits).
pub open spec fn num_error(s: Seq<char>, i: int) -> ParseError {
    if digits_end(s, i) > i + 1 && s[i] == '0' {
        ParseError::LeadingZero
    } else {
        ParseError::NotAVersion
    }
}

/// `digits_end(s, i)` is the first position at or after `i` that does not
/// hold a digit, and it does not pass the end of `s`.
pub proof fn lemma_digits_end(s: Seq<char>, i: int)
    requires
        0 <= i <= s.len(),
    ensures
        i <= digits_end(s, i) <= s.len(),
        forall|k: int| i <= k < digits_end(s, i) ==> is_digit(s[k]),
        digits_end(s, i) < s.len() ==> !is_digit(s[digits_end(s, i)]),
    decreases s.len() - i,
{
    if i < s.len() && is_digit(s[i]) {
        lemma_digits_end(s, i + 1);
    }
}

/// A digit run has a non-negative value.
pub proof fn lemma_num_value_nonneg(s: Seq<char>, i: int, j: int)
    requires
        i <= j,
        forall|x: int| i <= x < j ==> is_digit(s[x]),
    ensures
        0 <= num_value(s, i, j),
    decreases j - i,
{
    if i < j {
        lemma_num_value_nonneg(s, i, j - 1);
        assert(is_digit(s[j - 1]));
    }
}

/// Extending a digit run to the right cannot decrease its value.
pub proof fn lemma_num_value_increases(s: Seq<char>, i: int, j: int, k: int)
    requires
        i <= j <= k,
        forall|x: int| i <= x < k ==> is_digit(s[x]),
    ensures
        num_value(s, i, j) <= num_value(s, i, k),
    decreases k - j,
{
    if j < k {
        lemma_num_value_increases(s, i, j, k - 1);
        lemma_num_value_nonneg(s, i, k - 1);
        assert(is_digit(s[k - 1]));
    }
}

/// A digit run of known extent is maximal: if `s[i..j)` are all digits and a
/// non-digit, or the end of `s`, stands at `j`, then the run that starts at
/// `i` ends exactly at `j`.
pub proof fn lemma_digits_end_is(s: Seq<char>, i: int, j: int)
    requires
        0 <= i <= j <= s.len(),
        forall|k: int| i <= k < j ==> is_digit(s[k]),
        j == s.len() || !is_digit(s[j]),
    ensures
        digits_end(s, i) == j,
    decreases j - i,
{
    if i < j {
        assert(is_digit(s[i]));
        lemma_digits_end_is(s, i + 1, j);
    }
}

/// The value of a digit run depends only on the characters it spans: equal
/// spans in two sequences have equal values.
pub proof fn lemma_num_value_congruence(s: Seq<char>, t: Seq<char>, si: int, ti: int, len: int)
    requires
        0 <= len,
        forall|k: int| si <= k < si + len ==> #[trigger] s[k] == t[k - si + ti],
    ensures
        num_value(s, si, si + len) == num_value(t, ti, ti + len),
    decreases len,
{
    if 0 < len {
        lemma_num_value_congruence(s, t, si, ti, len - 1);
        assert(s[si + (len - 1)] == t[ti + (len - 1)]);
    }
}

/// The position just past the maximal digit run of `s` that starts at
/// position `i`, found by scanning forward.
fn digit_run_end(s: &str, n: usize, i: usize) -> (j: usize)
    requires
        n == s@.len(),
        i <= n,
    ensures
        i <= j <= n,
        j as int == digits_end(s@, i as int),
{
    let mut j: usize = i;
    loop
        invariant
            i <= j <= n,
            n == s@.len(),
            digits_end(s@, i as int) == digits_end(s@, j as int),
        ensures
            i <= j <= n,
            j as int == digits_end(s@, i as int),
        decreases n - j,
    {
        if j == n {
            break;
        }
        let c = s.get_char(j);
        if !('0' <= c && c <= '9') {
            break;
        }
        j = j + 1;
    }
    j
}

/// Reads the numeric component of `s` that starts at position `i`: the
/// maximal digit run there, as a 64-bit value, with the position just past
/// it. Fails exactly when no digit stands at `i`, when a run of several
/// digits begins with `0`, or when the value does not fit in 64 bits.
pub fn parse_number(s: &str, n: usize, i: usize) -> (r: Result<(u64, usize), ParseError>)
    requires
        n == s@.len(),
        i <= n,
    ensures
        match r {
            Ok(t) => {
                &&& num_ok(s@, i as int)
                &&& t.1 <= n
                &&& t.1 as int == digits_end(s@, i as int)
                &&& t.0 as int == num_value(s@, i as int, t.1 as int)
            },
            Err(e) => {
                &&& !num_ok(s@, i as int)
                &&& e == num_error(s@, i as int)
            },
        },
{
    proof {
        lemma_digits_end(s@, i as int);
    }
    let j = digit_run_end(s, n, i);
    if j == i {
        return Err(ParseError::NotAVersion);
    }
    if j > i + 1 && s.get_char(i) == '0' {
        return Err(ParseError::LeadingZero);
    }
    let mut val: u64 = 0;
    let mut k: usize = i;
    while k < j
        invariant
            i <= k <= j <= n,
            n == s@.len(),
            j as int == digits_end(s@, i as int),
            forall|x: int| i <= x < j ==> is_digit(s@[x]),
            s@[i as int] != '0' || j == i + 1,
            val as int == num_value(s@, i as int, k as int),
        decreases j - k,
    {
        let c = s.get_char(k);
        let d: u64 = (c as u32 - '0' as u32) as u64;
        let scaled = match val.checked_mul(10) {
            Some(m) => m,
            None => {
                proof {
                    lemma_num_value_nonneg(s@, i as int, k as int);
                    lemma_num_value_increases(s@, i as int, k as int + 1, j as int);
                }
                return Err(ParseError::NotAVersion);
            },
        };
        let next = match scaled.checked_add(d) {
            Some(v) => v,
            None => {
                proof {
                    lemma_num_value_increases(s@, i as int, k as int + 1, j as int);
                }
                return Err(ParseError::NotAVersion);
            },
        };
        val = next;
        k = k + 1;
    }
    Ok((val, j))
}

} // verus!
