//! Address handling for page requests.

use vstd::prelude::*;

use crate::text::{
    has_prefix, lemma_trim_ends, lemma_trim_idempotent, lemma_trim_unchanged,
    starts_with, trim, trim_spec,
};

verus! {

/// Whether `s` already names its scheme as `http://` or `https://`.
pub open spec fn has_web_scheme(s: Seq<char>) -> bool {
    has_prefix(s, "http://"@) || has_prefix(s, "https://"@)
}

/// The address that a typed URL stands for: trimmed, and given `https://` when it
/// names no web scheme.
pub open spec fn normalized_url(url: Seq<char>) -> Seq<char> {
    let t = trim_spec(url);
    if has_web_scheme(t) {
        t
    } else {
        "https://"@ + t
    }
}

/// Makes sure a URL starts with `http://` or `https://`: `example.com` becomes
/// `https://example.com`.
pub fn normalize_url(url: &str) -> (r: String)
    ensures
        r@ == normalized_url(url@),
{
    let trimmed = trim(url);
    if starts_with(trimmed, "http://") || starts_with(trimmed, "https://") {
        trimmed.to_owned()
    } else {
        String::from_str("https://").concat(trimmed)
    }
}


/// Every normalised URL names the `http://` or `https://` scheme.
pub proof fn lemma_normalized_has_scheme(url: Seq<char>)
    ensures
        has_web_scheme(normalized_url(url)),
{
    let t = trim_spec(url);
    if !has_web_scheme(t) {
        reveal_strlit("https://");
        assert(("https://"@ + t).take(8) =~= "https://"@);
    }
}

/// Normalising a normalised URL changes nothing.
pub proof fn lemma_normalize_idempotent(url: Seq<char>)
    ensures
        normalized_url(normalized_url(url)) == normalized_url(url),
{
    let t = trim_spec(url);
    lemma_trim_idempotent(url);
    lemma_normalized_has_scheme(url);
    if !has_web_scheme(t) {
        reveal_strlit("https://");
        let n = "https://"@ + t;
        lemma_trim_ends(url);
        assert(n[0] == 'h');
        if t.len() > 0 {
            assert(n.last() == t.last());
        } else {
            assert(n.last() == '/');
        }
        lemma_trim_unchanged(n);
    }
}

/// A normalised URL always starts with the text `http://` or `https://`; a trimmed
/// input that starts with neither becomes `https://` followed by it, and one that
/// starts with either is kept as it is.
pub proof fn lemma_normalized_url_literal(url: Seq<char>)
    ensures
        has_prefix(normalized_url(url), "http://"@) || has_prefix(normalized_url(url), "https://"@),
        !has_prefix(trim_spec(url), "http://"@) && !has_prefix(trim_spec(url), "https://"@)
            ==> normalized_url(url) == "https://"@ + trim_spec(url),
        has_prefix(trim_spec(url), "http://"@) || has_prefix(trim_spec(url), "https://"@)
            ==> normalized_url(url) == trim_spec(url),
{
    let t = trim_spec(url);
    if !has_prefix(t, "http://"@) && !has_prefix(t, "https://"@) {
        reveal_strlit("https://");
        assert(("https://"@ + t).take(8) =~= "https://"@);
    }
}

} // verus!
