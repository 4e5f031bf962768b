//! Search-engine URLs for a query.

use vstd::prelude::*;

use crate::url_parts::{
    append_query_pair, parse_error_text, url_error_text, url_parses, url_with_query_pair,
};

verus! {

/// The supported search engines: display name and base search URL.
pub open spec fn search_engines() -> Seq<(Seq<char>, Seq<char>)> {
    seq![
        ("Google"@, "https://www.google.com/search"@),
        ("Bing"@, "https://www.bing.com/search"@),
        ("DuckDuckGo"@, "https://www.duckduckgo.com/"@),
        ("Yahoo"@, "https://www.yahoo.com/search"@),
    ]
}

fn search_engines_exec() -> (r: Vec<(&'static str, &'static str)>)
    ensures
        r@.len() == search_engines().len(),
        forall|i: int|
            0 <= i < r@.len() ==> (#[trigger] r@[i]).0@ == search_engines()[i].0 && r@[i].1@
                == search_engines()[i].1,
{
    vec![
        ("Google", "https://www.google.com/search"),
        ("Bing", "https://www.bing.com/search"),
        ("DuckDuckGo", "https://www.duckduckgo.com/"),
        ("Yahoo", "https://www.yahoo.com/search"),
    ]
}

/// The search URL for `query` on the engine whose base URL is `base`.
pub open spec fn search_url(base: Seq<char>, query: Seq<char>) -> Seq<char> {
    url_with_query_pair(base, "q"@, query)
}

/// Builds a search URL by adding the query as a `q` parameter to the base URL.
pub fn build_search_url(base_url: &str, query: &str) -> (r: Result<String, url::ParseError>)
    ensures
        r is Ok <==> url_parses(base_url@),
        r matches Ok(s) ==> s@ == search_url(base_url@, query@),
{
    append_query_pair(base_url, "q", query)
}

/// The start of the text that stands in for a search URL that could not be built;
/// the URL parser's message follows it.
pub open spec fn search_error_prefix() -> Seq<char> {
    "Error building search URL: "@
}

/// The Google search URL for `query`.
pub fn search(query: &str) -> (r: String)
    ensures
        url_parses(search_engines()[0].1) ==> r@ == search_url(search_engines()[0].1, query@),
        !url_parses(search_engines()[0].1) ==> r@ == search_error_prefix() + url_error_text(
            search_engines()[0].1,
        ),
{
    let engines = search_engines_exec();
    let google = engines[0].1;
    match build_search_url(google, query) {
        Ok(search_url) => search_url,
        Err(_) => {
            let text = match parse_error_text(google) {
                Some(t) => t,
                None => String::new(),
            };
            String::from_str("Error building search URL: ").concat(text.as_str())
        },
    }
}

/// The line shown for engine `name` when its search URL is `url`.
pub open spec fn engine_line(name: Seq<char>, url: Seq<char>) -> Seq<char> {
    "  "@ + name + " → "@ + url
}

/// The start of the line shown for engine `name` when its search URL could not be
/// built; the URL parser's message follows it.
pub open spec fn engine_error_prefix(name: Seq<char>) -> Seq<char> {
    "  "@ + name + " → Error: "@
}

/// One line per supported engine with the URL that searches it for `query`, as the
/// browser lists them.
pub fn search_engine_lines(query: &str) -> (r: Vec<String>)
    ensures
        r@.len() == search_engines().len(),
        forall|i: int|
            0 <= i < r@.len() ==> {
                let (name, base) = #[trigger] search_engines()[i];
                &&& url_parses(base) ==> r@[i]@ == engine_line(name, search_url(base, query@))
                &&& !url_parses(base) ==> r@[i]@ == engine_error_prefix(name) + url_error_text(base)
            },
{
    let engines = search_engines_exec();
    let mut lines: Vec<String> = Vec::new();
    let n = engines.len();
    let mut i: usize = 0;
    while i < n
        invariant
            n == engines@.len(),
            n == search_engines().len(),
            i <= n,
            lines@.len() == i,
            forall|k: int|
                0 <= k < n ==> (#[trigger] engines@[k]).0@ == search_engines()[k].0 && engines@[k].1@
                    == search_engines()[k].1,
            forall|k: int|
                0 <= k < i ==> {
                    let (name, base) = #[trigger] search_engines()[k];
                    &&& url_parses(base) ==> lines@[k]@ == engine_line(name, search_url(base, query@))
                    &&& !url_parses(base) ==> lines@[k]@ == engine_error_prefix(name) + url_error_text(base)
                },
        decreases n - i,
    {
        let (name, base) = engines[i];
        let line = match build_search_url(base, query) {
            Ok(url) => String::from_str("  ").concat(name).concat(" → ").concat(url.as_str()),
            Err(_) => {
                let text = match parse_error_text(base) {
                    Some(t) => t,
                    None => String::new(),
                };
                String::from_str("  ").concat(name).concat(" → Error: ").concat(text.as_str())
            },
        };
        lines.push(line);
        i = i + 1;
    }
    lines
}

} // verus!
