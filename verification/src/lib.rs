//! One-shot loopback OAuth redirect capture: the verified decision core.
//!
//! The library decides, from the raw bytes of the single HTTP request read off
//! the loopback connection, what response to write back and whether an
//! authorization code is to be delivered to the host application.  All network
//! I/O stays with the host; the core here is pure and verified.

use vstd::prelude::*;
use vstd::string::StringExecFns;

pub mod laws;
pub mod response;
pub mod text;
pub mod urlq;

verus! {

/// The absolute URL the handler builds around the request target, so that a
/// bare path with a query becomes parseable.
pub open spec fn full_url_of(t: Seq<char>) -> Seq<char> {
    "http://127.0.0.1"@ + t
}

/// The authorization code the request bytes carry: the request target is the
/// second whitespace-delimited token of the first line; prefixed with the
/// loopback origin it must parse as a URL; the first `code` parameter of its
/// decoded query decides, and only a non-empty value counts.
pub open spec fn auth_code_of(bytes: Seq<u8>) -> Option<Seq<char>> {
    match text::second_token(text::first_line(text::lossy_utf8(bytes))) {
        Option::None => Option::None,
        Option::Some(t) => {
            let u = full_url_of(t);
            if urlq::url_parse_ok(u) {
                match urlq::first_code_value(urlq::url_query_of(u)) {
                    Option::Some(v) => if v.len() > 0 {
                        Option::Some(v)
                    } else {
                        Option::None
                    },
                    Option::None => Option::None,
                }
            } else {
                Option::None
            }
        },
    }
}

/// Outcome of parsing the callback request: either a non-empty authorization
/// code extracted from the `code` query parameter, or nothing.
pub enum AuthorizationResult {
    Code(String),
    Absent,
}

impl AuthorizationResult {
    /// The code carried, as a mathematical value: `Some` of the character
    /// sequence for `Code`, `None` for `Absent`.
    pub open spec fn code_view(&self) -> Option<Seq<char>> {
        match self {
            AuthorizationResult::Code(s) => Some(s@),
            AuthorizationResult::Absent => None,
        }
    }

    /// True exactly when a code was extracted.
    pub fn is_code(&self) -> (r: bool)
        ensures
            r == (self.code_view() is Some),
    {
        match self {
            AuthorizationResult::Code(_) => true,
            AuthorizationResult::Absent => false,
        }
    }
}

/// The payload delivered to the host application: present at most once per
/// attempt, and only when a code was captured.
pub struct CallbackNotification {
    pub code: String,
}

/// What one served connection produces: the response text to write back and
/// the at-most-one notification for the host.  The host writes the response
/// before it delivers the notification.
pub struct ConnectionOutcome {
    pub response: String,
    pub notification: Option<CallbackNotification>,
}

/// Parse the raw bytes read off the connection and extract the authorization
/// code.  The first `code` parameter of the query decides, and an empty value
/// counts as absent.
pub fn parse_callback_request(data: &[u8]) -> (r: AuthorizationResult)
    ensures
        r.code_view() == auth_code_of(data@),
{
    let s = text::lossy_decode(data);
    let target = text::request_target(s.as_str());
    match target {
        Option::None => AuthorizationResult::Absent,
        Option::Some(t) => {
            let mut full = String::from_str("http://127.0.0.1");
            full.append(t.as_str());
            match urlq::parse_url(full.as_str()) {
                Option::None => AuthorizationResult::Absent,
                Option::Some(u) => {
                    let pairs = urlq::query_pairs_vec(&u);
                    match urlq::find_code(&pairs) {
                        Option::None => AuthorizationResult::Absent,
                        Option::Some(v) => {
                            if v.as_str().is_empty() {
                                AuthorizationResult::Absent
                            } else {
                                AuthorizationResult::Code(v)
                            }
                        },
                    }
                },
            }
        },
    }
}

/// Decide the at-most-one notification for a parse outcome: one exactly when
/// a code was captured, carrying that code.
pub fn notification_for(r: &AuthorizationResult) -> (n: Option<CallbackNotification>)
    ensures
        match n {
            Option::Some(p) => r.code_view() == Some(p.code@),
            Option::None => r.code_view() is None,
        },
{
    match r {
        AuthorizationResult::Code(s) => Some(CallbackNotification { code: s.clone() }),
        AuthorizationResult::Absent => None,
    }
}

/// Decide the whole exchange from the bytes read off the one connection.
/// Nothing is produced for an empty read; otherwise the fixed response
/// selected by the parse outcome, together with the at-most-one notification.
pub fn handle_request(data: &[u8]) -> (r: Option<ConnectionOutcome>)
    ensures
        (r is Some) <==> data@.len() > 0,
        r matches Some(o) ==> {
            &&& o.response@ == response::response_spec(auth_code_of(data@) is Some)
            &&& ((o.notification is Some) <==> (auth_code_of(data@) is Some))
            &&& (o.notification matches Some(p) ==> Some(p.code@) == auth_code_of(data@))
        },
{
    if data.len() == 0 {
        return None;
    }
    let result = parse_callback_request(data);
    let response = response::render_response(result.is_code());
    let notification = notification_for(&result);
    Some(ConnectionOutcome { response, notification })
}

} // verus!
