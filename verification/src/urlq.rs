//! URL and query-string handling.  The `url` crate does the parsing and the
//! percent-decoding; the library trusts it through the declarations here and
//! works on the decoded pairs as plain values.

use vstd::prelude::*;
use vstd::string::StringExecFns;
use crate::text::opt_str_view;

verus! {

#[verifier::external_type_specification]
#[verifier::external_body]
pub struct ExUrl(url::Url);

/// Whether `url::Url::parse` accepts the string: the verdict depends on the
/// characters alone.
pub uninterp spec fn url_parse_ok(s: Seq<char>) -> bool;

/// The decoded query pairs of the URL that `url::Url::parse` builds from the
/// string: a function of the characters alone.
pub uninterp spec fn url_query_of(s: Seq<char>) -> Seq<(Seq<char>, Seq<char>)>;

/// The decoded query pairs a `url::Url` value holds, in declaration order.
pub uninterp spec fn url_query_pairs(u: url::Url) -> Seq<(Seq<char>, Seq<char>)>;

/// Relies on `url::Url::parse`: deterministic in its input, and on success
/// the URL it builds holds the query pairs of that input.
#[verifier::external_body]
pub(crate) fn parse_url(s: &str) -> (r: Option<url::Url>)
    ensures
        (r is Some) <==> url_parse_ok(s@),
        r matches Some(u) ==> url_query_pairs(u) == url_query_of(s@),
{
    url::Url::parse(s).ok()
}

/// The views of a sequence of owned string pairs.
pub open spec fn pairs_view(v: Seq<(String, String)>) -> Seq<(Seq<char>, Seq<char>)> {
    v.map_values(|p: (String, String)| (p.0@, p.1@))
}

/// Relies on `url::Url::query_pairs` (backed by `form_urlencoded::parse`):
/// yields the `&`-separated pairs of the query in order, names and values
/// split at the first `=`, percent-decoded with `+` read as a space.
#[verifier::external_body]
pub(crate) fn query_pairs_vec(u: &url::Url) -> (r: Vec<(String, String)>)
    ensures
        pairs_view(r@) == url_query_pairs(*u),
{
    u.query_pairs().into_owned().collect()
}

/// The name of the query parameter that carries the authorization code.
pub open spec fn code_key() -> Seq<char> {
    "code"@
}

/// The value of the first `code` parameter among `pairs`, if any.
pub open spec fn first_code_value(pairs: Seq<(Seq<char>, Seq<char>)>) -> Option<Seq<char>>
    decreases pairs.len(),
{
    if pairs.len() == 0 {
        Option::None
    } else if pairs[0].0 == code_key() {
        Option::Some(pairs[0].1)
    } else {
        first_code_value(pairs.drop_first())
    }
}

/// Find the first `code` parameter among the decoded pairs.
pub fn find_code(pairs: &Vec<(String, String)>) -> (r: Option<String>)
    ensures
        opt_str_view(r) == first_code_value(pairs_view(pairs@)),
{
    let key = String::from_str("code");
    let ghost pv = pairs_view(pairs@);
    let n = pairs.len();
    let mut i: usize = 0;
    assert(pv.skip(0) =~= pv);
    loop
        invariant
            i <= n,
            n == pairs.len(),
            key@ == code_key(),
            pv == pairs_view(pairs@),
            first_code_value(pv) == first_code_value(pv.skip(i as int)),
        decreases n - i,
    {
        if i == n {
            assert(pv.skip(i as int) =~= Seq::<(Seq<char>, Seq<char>)>::empty());
            return None;
        }
        assert(pv.skip(i as int)[0] == pv[i as int]);
        assert(pv.skip(i as int).drop_first() =~= pv.skip(i as int + 1));
        if pairs[i].0 == key {
            let v = pairs[i].1.clone();
            assert(first_code_value(pv.skip(i as int)) == Option::Some(pv[i as int].1));
            return Some(v);
        }
        i = i + 1;
    }
}

} // verus!
