//! The two fixed HTTP/1.1 responses, rendered with a verified decimal
//! `Content-Length` that counts the exact bytes of the body.

use vstd::prelude::*;
use vstd::string::StringExecFns;
use vstd::string::StringSliceAdditionalSpecFns;
use vstd::utf8::encode_utf8;

verus! {

/// The digit character for `d` (only `d < 10` arises).
pub open spec fn digit_char(d: nat) -> char {
    if d == 0 {
        '0'
    } else if d == 1 {
        '1'
    } else if d == 2 {
        '2'
    } else if d == 3 {
        '3'
    } else if d == 4 {
        '4'
    } else if d == 5 {
        '5'
    } else if d == 6 {
        '6'
    } else if d == 7 {
        '7'
    } else if d == 8 {
        '8'
    } else {
        '9'
    }
}

/// The decimal digits of `n`, most significant first.
pub open spec fn dec_rep(n: nat) -> Seq<char>
    decreases n,
{
    if n < 10 {
        seq![digit_char(n)]
    } else {
        dec_rep(n / 10) + seq![digit_char(n % 10)]
    }
}

/// The digit character for `d`, as a one-character string.
fn digit_str(d: usize) -> (r: &'static str)
    requires
        d < 10,
    ensures
        r@ == seq![digit_char(d as nat)],
{
    proof {
        reveal_strlit("0");
        reveal_strlit("1");
        reveal_strlit("2");
        reveal_strlit("3");
        reveal_strlit("4");
        reveal_strlit("5");
        reveal_strlit("6");
        reveal_strlit("7");
        reveal_strlit("8");
        reveal_strlit("9");
    }
    let r: &'static str = if d == 0 {
        "0"
    } else if d == 1 {
        "1"
    } else if d == 2 {
        "2"
    } else if d == 3 {
        "3"
    } else if d == 4 {
        "4"
    } else if d == 5 {
        "5"
    } else if d == 6 {
        "6"
    } else if d == 7 {
        "7"
    } else if d == 8 {
        "8"
    } else {
        "9"
    };
    proof {
        assert(r@ =~= seq![digit_char(d as nat)]);
    }
    r
}

/// Render `n` in decimal.
pub fn decimal_digits(n: usize) -> (r: String)
    ensures
        r@ == dec_rep(n as nat),
    decreases n,
{
    if n < 10 {
        String::from_str(digit_str(n))
    } else {
        let high = decimal_digits(n / 10);
        high.concat(digit_str(n % 10))
    }
}

/// Body served when a code was captured.
pub open spec fn success_body_spec() -> Seq<char> {
    "<html><body style='font-family:system-ui;text-align:center;padding:60px;'><h2>Sign-in successful!</h2><p>You can close this tab and return to the application.</p></body></html>"@
}

/// Body served when no code was captured.
pub open spec fn failure_body_spec() -> Seq<char> {
    "<html><body style='font-family:system-ui;text-align:center;padding:60px;'><h2>Sign-in failed</h2><p>No authorization code received. Please try again.</p></body></html>"@
}

/// The body for the given outcome.
pub open spec fn body_spec(ok: bool) -> Seq<char> {
    if ok {
        success_body_spec()
    } else {
        failure_body_spec()
    }
}

/// The status-line phrase for the given outcome.
pub open spec fn status_spec(ok: bool) -> Seq<char> {
    if ok {
        "200 OK"@
    } else {
        "400 Bad Request"@
    }
}

/// How many bytes the body occupies on the wire.
pub open spec fn body_byte_len(ok: bool) -> nat {
    encode_utf8(body_spec(ok)).len()
}

/// Everything of the response before the `Content-Length` digits.
pub open spec fn response_prefix(ok: bool) -> Seq<char> {
    "HTTP/1.1 "@ + status_spec(ok) + "\r\nContent-Type: text/html\r\nContent-Length: "@
}

/// Everything between the `Content-Length` digits and the body, blank line
/// included.
pub open spec fn response_separator() -> Seq<char> {
    "\r\nConnection: close\r\n\r\n"@
}

/// The full HTTP/1.1 response for the given outcome, character by character.
pub open spec fn response_spec(ok: bool) -> Seq<char> {
    response_prefix(ok) + dec_rep(body_byte_len(ok)) + response_separator() + body_spec(ok)
}

/// Render the response for the given outcome.  The `Content-Length` field
/// holds the exact byte length of the body that closes the response.
pub fn render_response(ok: bool) -> (r: String)
    ensures
        r@ == response_spec(ok),
{
    let body: &str = if ok {
        "<html><body style='font-family:system-ui;text-align:center;padding:60px;'><h2>Sign-in successful!</h2><p>You can close this tab and return to the application.</p></body></html>"
    } else {
        "<html><body style='font-family:system-ui;text-align:center;padding:60px;'><h2>Sign-in failed</h2><p>No authorization code received. Please try again.</p></body></html>"
    };
    assert(body@ == body_spec(ok));
    let blen: usize = body.as_bytes().len();
    assert(blen as nat == body_byte_len(ok));
    let mut r = String::from_str("HTTP/1.1 ");
    if ok {
        r.append("200 OK");
    } else {
        r.append("400 Bad Request");
    }
    r.append("\r\nContent-Type: text/html\r\nContent-Length: ");
    let digits = decimal_digits(blen);
    r.append(digits.as_str());
    r.append("\r\nConnection: close\r\n\r\n");
    r.append(body);
    proof {
        assert(r@ =~= response_spec(ok));
    }
    r
}

} // verus!
