//! Properties that relate the public functions to one another, stated and
//! proved over the same specification functions the contracts use.

use vstd::prelude::*;

use crate::errors::ParseError;
use crate::num::digit_val;
use crate::num::is_digit;
use crate::num::lemma_digits_end_is;
use crate::num::lemma_num_value_congruence;
use crate::num::num_value;
use crate::version::spec_parse;
use crate::version::Version;

verus! {

/// The character that renders the decimal digit `d`.
pub open spec fn digit_char(d: int) -> char {
    if d == 0 {
        '0'
    } else if d == 1 {
        '1'
    } else if d == 2 {
        '2'
    } else if d == 3 {
        '3'
    } else if d == 4 {
        '4'
    } else if d == 5 {
        '5'
    } else if d == 6 {
        '6'
    } else if d == 7 {
        '7'
    } else if d == 8 {
        '8'
    } else {
        '9'
    }
}

/// The canonical decimal rendering of `n`: most significant digit first, and
/// no leading zero beyond a bare `0`.
pub open spec fn dec_digits(n: int) -> Seq<char>
    decreases n,
{
    if n < 10 {
        seq![digit_char(n)]
    } else {
        dec_digits(n / 10).push(digit_char(n % 10))
    }
}

/// The canonical rendering of `n` is a well-formed numeric component whose
/// value is `n` itself.
pub proof fn lemma_dec_digits(n: int)
    requires
        0 <= n,
    ensures
        dec_digits(n).len() >= 1,
        forall|k: int| 0 <= k < dec_digits(n).len() ==> is_digit(#[trigger] dec_digits(n)[k]),
        num_value(dec_digits(n), 0, dec_digits(n).len() as int) == n,
        n > 0 ==> dec_digits(n)[0] != '0',
        dec_digits(n)[0] == '0' ==> dec_digits(n).len() == 1,
    decreases n,
{
    if n < 10 {
        let s = dec_digits(n);
        assert(s.len() == 1);
        assert(s[0] == digit_char(n));
        assert(is_digit(digit_char(n)));
        assert(digit_val(digit_char(n)) == n);
        assert(num_value(s, 0, 0) == 0);
        assert(num_value(s, 0, 1) == num_value(s, 0, 0) * 10 + digit_val(s[0]));
    } else {
        lemma_dec_digits(n / 10);
        let d = dec_digits(n / 10);
        let s = dec_digits(n);
        assert(s == d.push(digit_char(n % 10)));
        assert(s.len() == d.len() + 1);
        assert(forall|k: int| 0 <= k < d.len() ==> s[k] == d[k]);
        assert(s[s.len() - 1] == digit_char(n % 10));
        assert(is_digit(digit_char(n % 10)));
        assert(digit_val(digit_char(n % 10)) == n % 10);
        lemma_num_value_congruence(s, d, 0, 0, d.len() as int);
        assert(num_value(s, 0, s.len() as int) == num_value(s, 0, d.len() as int) * 10 + digit_val(
            s[s.len() - 1],
        ));
        assert(num_value(s, 0, s.len() as int) == (n / 10) * 10 + n % 10);
        assert(n / 10 > 0);
    }
}

/// The canonical text of a version: the three components rendered in decimal,
/// separated by dots.
pub open spec fn version_chars(major: u64, minor: u64, patch: u64) -> Seq<char> {
    dec_digits(major as int) + seq!['.'] + dec_digits(minor as int) + seq!['.'] + dec_digits(
        patch as int,
    )
}

/// Parsing round-trips rendering: the canonical text of any three components
/// parses back to exactly those three components.
pub proof fn lemma_parse_round_trip(major: u64, minor: u64, patch: u64)
    ensures
        spec_parse(version_chars(major, minor, patch)) == Ok::<Version, ParseError>(
            Version { major, minor, patch },
        ),
{
    let d1 = dec_digits(major as int);
    let d2 = dec_digits(minor as int);
    let d3 = dec_digits(patch as int);
    let s = version_chars(major, minor, patch);
    lemma_dec_digits(major as int);
    lemma_dec_digits(minor as int);
    lemma_dec_digits(patch as int);
    let j1 = d1.len() as int;
    let j2 = j1 + 1 + d2.len() as int;
    let j3 = j2 + 1 + d3.len() as int;
    assert(s.len() == j3);
    assert(forall|k: int| 0 <= k < j1 ==> #[trigger] s[k] == d1[k - 0 + 0]);
    assert(s[j1] == '.');
    assert(forall|k: int| j1 + 1 <= k < j2 ==> #[trigger] s[k] == d2[k - (j1 + 1) + 0]);
    assert(s[j2] == '.');
    assert(forall|k: int| j2 + 1 <= k < j3 ==> #[trigger] s[k] == d3[k - (j2 + 1) + 0]);
    assert(!is_digit('.'));
    lemma_digits_end_is(s, 0, j1);
    lemma_num_value_congruence(s, d1, 0, 0, j1);
    lemma_digits_end_is(s, j1 + 1, j2);
    lemma_num_value_congruence(s, d2, j1 + 1, 0, d2.len() as int);
    lemma_digits_end_is(s, j2 + 1, j3);
    lemma_num_value_congruence(s, d3, j2 + 1, 0, d3.len() as int);
}

/// Parsing is a pure function of its input text: two parse results obtained
/// from the same character sequence are equal.
pub proof fn lemma_parse_deterministic(
    s: Seq<char>,
    r1: Result<Version, ParseError>,
    r2: Result<Version, ParseError>,
)
    requires
        r1 == spec_parse(s),
        r2 == spec_parse(s),
    ensures
        r1 == r2,
{
}

} // verus!
