//! The calls into the `url` crate, with what the library relies on of them.

use vstd::prelude::*;

verus! {

/// `url::ParseError`, the reason a URL does not parse.
#[verifier::external_type_specification]
#[verifier::external_body]
pub struct ExUrlParseError(url::ParseError);

/// Whether `url::Url::parse` accepts `s` as an absolute URL.
pub uninterp spec fn url_parses(s: Seq<char>) -> bool;

/// The serialisation of the URL that `url::Url::parse` makes of `base`, after
/// `query_pairs_mut().append_pair(key, value)` has added `key=value`
/// (form-urlencoded) to its query.
pub uninterp spec fn url_with_query_pair(base: Seq<char>, key: Seq<char>, value: Seq<char>) -> Seq<char>;

/// The decoded `(name, value)` pairs of the query of the URL that `url::Url::parse`
/// makes of `s`, in order, as `Url::query_pairs` yields them.
pub uninterp spec fn url_query_pairs(s: Seq<char>) -> Seq<(Seq<char>, Seq<char>)>;

pub open spec fn pair_views(v: Seq<(String, String)>) -> Seq<(Seq<char>, Seq<char>)> {
    v.map_values(|p: (String, String)| (p.0@, p.1@))
}

/// Calls `url::Url::parse` on `base`, then `query_pairs_mut().append_pair(key, value)`
/// and `to_string()`. Claimed: the call fails exactly when `base` does not parse, and
/// otherwise returns the named serialisation, a function of the three arguments.
#[verifier::external_body]
pub(crate) fn append_query_pair(base: &str, key: &str, value: &str) -> (r: Result<String, url::ParseError>)
    ensures
        r is Ok <==> url_parses(base@),
        r matches Ok(s) ==> s@ == url_with_query_pair(base@, key@, value@),
{
    let mut parsed = url::Url::parse(base)?;
    parsed.query_pairs_mut().append_pair(key, value);
    Ok(parsed.to_string())
}

/// Calls `url::Url::parse` on `s` and collects `query_pairs()` as owned strings.
/// Claimed: `None` exactly when `s` does not parse, and otherwise the named pairs.
#[verifier::external_body]
pub(crate) fn query_pairs_of(s: &str) -> (r: Option<Vec<(String, String)>>)
    ensures
        r is Some <==> url_parses(s@),
        r matches Some(v) ==> pair_views(v@) == url_query_pairs(s@),
{
    let parsed = match url::Url::parse(s) {
        Ok(u) => u,
        Err(_) => return None,
    };
    let mut out = Vec::new();
    for (k, v) in parsed.query_pairs() {
        out.push((k.into_owned(), v.into_owned()));
    }
    Some(out)
}

/// The `Display` text of the error that `url::Url::parse` gives for `s`.
pub uninterp spec fn url_error_text(s: Seq<char>) -> Seq<char>;

/// Calls `url::Url::parse` on `s` and, when it fails, `to_string` on the error.
/// Claimed: `None` exactly when `s` parses, and otherwise the named text of the error,
/// a function of `s` alone.
#[verifier::external_body]
pub(crate) fn parse_error_text(s: &str) -> (r: Option<String>)
    ensures
        r is None <==> url_parses(s@),
        r matches Some(t) ==> t@ == url_error_text(s@),
{
    match url::Url::parse(s) {
        Ok(_) => None,
        Err(e) => Some(e.to_string()),
    }
}

} // verus!
