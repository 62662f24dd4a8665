//! Laws of the response format, stated and proved once for every outcome.

use vstd::prelude::*;
use vstd::arithmetic::div_mod::lemma_fundamental_div_mod;
use vstd::utf8::encode_utf8;
use crate::response::{body_byte_len, body_spec, dec_rep, digit_char, response_prefix,
    response_separator, response_spec};

verus! {

/// The numeric value of one digit character (ten for anything else, which
/// `dec_rep` never produces).
pub open spec fn digit_value(c: char) -> nat {
    if c == '0' {
        0
    } else if c == '1' {
        1
    } else if c == '2' {
        2
    } else if c == '3' {
        3
    } else if c == '4' {
        4
    } else if c == '5' {
        5
    } else if c == '6' {
        6
    } else if c == '7' {
        7
    } else if c == '8' {
        8
    } else if c == '9' {
        9
    } else {
        10
    }
}

/// The number a sequence of decimal digit characters denotes.
pub open spec fn digits_value(s: Seq<char>) -> nat
    decreases s.len(),
{
    if s.len() == 0 {
        0
    } else {
        digits_value(s.drop_last()) * 10 + digit_value(s.last())
    }
}

/// Law: the decimal rendering of a number denotes that number.
pub proof fn lemma_dec_rep_value(n: nat)
    ensures
        digits_value(dec_rep(n)) == n,
    decreases n,
{
    if n < 10 {
        let s = seq![digit_char(n)];
        assert(dec_rep(n) == s);
        assert(s.drop_last() =~= Seq::<char>::empty());
        assert(digits_value(Seq::<char>::empty()) == 0);
        assert(s.last() == digit_char(n));
        assert(digit_value(digit_char(n)) == n);
        assert(digits_value(s) == 0 * 10 + digit_value(digit_char(n)));
    } else {
        lemma_dec_rep_value(n / 10);
        let s = dec_rep(n / 10) + seq![digit_char(n % 10)];
        assert(dec_rep(n) == s);
        assert(s.len() > 0);
        assert(s.drop_last() =~= dec_rep(n / 10));
        assert(s.last() == digit_char(n % 10));
        assert(digit_value(digit_char(n % 10)) == n % 10);
        assert(digits_value(s) == digits_value(s.drop_last()) * 10 + digit_value(s.last()));
        assert(digits_value(s) == (n / 10) * 10 + n % 10);
        lemma_fundamental_div_mod(n as int, 10);
        assert(n == 10 * (n / 10) + n % 10);
    }
}

/// Law: in every rendered response, the figure after `Content-Length: `
/// denotes exactly the number of bytes of the body that follows the blank
/// line.
pub proof fn lemma_content_length(ok: bool)
    ensures
        response_spec(ok) == response_prefix(ok) + dec_rep(body_byte_len(ok))
            + response_separator() + body_spec(ok),
        digits_value(dec_rep(body_byte_len(ok))) == encode_utf8(body_spec(ok)).len(),
{
    lemma_dec_rep_value(body_byte_len(ok));
}

} // verus!
