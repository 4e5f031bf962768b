//! Reading an HTML page: its title, headings, links and readable text.

use vstd::prelude::*;

use crate::text::{has_prefix, lemma_trim_idempotent, starts_with, str_eq, trim, trim_spec};
use crate::url_parts::{pair_views, query_pairs_of, url_parses, url_query_pairs};

verus! {

/// What the browser shows of a web page.
pub struct ParsedPage {
    /// The page title, or `(no title)`.
    pub title: String,
    /// The texts of the `h1`, `h2` and `h3` headings.
    pub headings: Vec<String>,
    /// The links, as (display text, URL).
    pub links: Vec<(String, String)>,
    /// The readable text: paragraphs, list items, table cells, code blocks, quotes.
    pub text: Vec<String>,
}

/// The contents of a [`ParsedPage`] as plain values.
pub struct ParsedPageView {
    pub title: Seq<char>,
    pub headings: Seq<Seq<char>>,
    pub links: Seq<(Seq<char>, Seq<char>)>,
    pub text: Seq<Seq<char>>,
}

pub open spec fn string_views(v: Seq<String>) -> Seq<Seq<char>> {
    v.map_values(|s: String| s@)
}

impl View for ParsedPage {
    type V = ParsedPageView;

    open spec fn view(&self) -> ParsedPageView {
        ParsedPageView {
            title: self.title@,
            headings: string_views(self.headings@),
            links: crate::url_parts::pair_views(self.links@),
            text: string_views(self.text@),
        }
    }
}

/// For each element of the HTML document `html` that the CSS selector list `selector`
/// matches, in the order that `scraper`'s `select` yields them (the order of the
/// parsed tree's node store, which can differ from source order where the HTML parser
/// moves nodes; no contract relies on the order): the element's text content (the
/// concatenation of its descendant text) and the value of its attribute `attr`;
/// `None` when `selector` is not a valid selector list.
pub uninterp spec fn scraped(html: Seq<char>, selector: Seq<char>, attr: Seq<char>) -> Option<
    Seq<(Seq<char>, Option<Seq<char>>)>,
>;

pub open spec fn element_views(v: Seq<(String, Option<String>)>) -> Seq<(Seq<char>, Option<Seq<char>>)> {
    v.map_values(|e: (String, Option<String>)| (e.0@, crate::text::opt_string_view(e.1)))
}

/// Calls `scraper::Selector::parse(selector)`, `scraper::Html::parse_document(html)` and
/// `select`, and collects each match's `text()` and `value().attr(attr)`. Claimed:
/// `None` exactly when the selector does not parse, and otherwise the named elements,
/// a function of the three arguments.
#[verifier::external_body]
fn select_elements(html: &str, selector: &str, attr: &str) -> (r: Option<Vec<(String, Option<String>)>>)
    ensures
        match r {
            Some(v) => scraped(html@, selector@, attr@) == Some(element_views(v@)),
            None => scraped(html@, selector@, attr@) is None,
        },
{
    let selector = match scraper::Selector::parse(selector) {
        Ok(s) => s,
        Err(_) => return None,
    };
    let document = scraper::Html::parse_document(html);
    let mut out = Vec::new();
    for element in document.select(&selector) {
        let value = match element.value().attr(attr) {
            Some(a) => Some(a.to_string()),
            None => None,
        };
        out.push((element.text().collect::<String>(), value));
    }
    Some(out)
}

/// The elements that `selector` matches in `html`; none when it does not parse.
pub open spec fn matched(html: Seq<char>, selector: Seq<char>, attr: Seq<char>) -> Seq<(Seq<char>, Option<Seq<char>>)> {
    match scraped(html, selector, attr) {
        Some(s) => s,
        None => Seq::empty(),
    }
}

fn matched_exec(html: &str, selector: &str, attr: &str) -> (r: Vec<(String, Option<String>)>)
    ensures
        element_views(r@) == matched(html@, selector@, attr@),
{
    match select_elements(html, selector, attr) {
        Some(v) => v,
        None => {
            let v: Vec<(String, Option<String>)> = Vec::new();
            assert(element_views(v@) =~= Seq::empty());
            v
        },
    }
}

/// The first query pair named `q` or `uddg` whose value is an `http://` or
/// `https://` URL.
pub open spec fn redirect_pair(pairs: Seq<(Seq<char>, Seq<char>)>) -> Option<Seq<char>>
    decreases pairs.len(),
{
    if pairs.len() == 0 {
        None
    } else {
        let (k, v) = pairs[0];
        if (k == "q"@ || k == "uddg"@) && (has_prefix(v, "http://"@) || has_prefix(v, "https://"@)) {
            Some(v)
        } else {
            redirect_pair(pairs.drop_first())
        }
    }
}

/// Where a link leads: the real destination when `href` is a search engine's redirect
/// (such as `/url?q=https://example.com&sa=...` or `//duckduckgo.com/l/?uddg=...`),
/// else `href` itself.
pub open spec fn redirect_target(href: Seq<char>) -> Seq<char> {
    let u = "https://placeholder"@ + href;
    if url_parses(u) {
        match redirect_pair(url_query_pairs(u)) {
            Some(v) => v,
            None => href,
        }
    } else {
        href
    }
}

/// Extracts the real URL from search-engine redirect links.
fn resolve_redirect(href: &str) -> (r: String)
    ensures
        r@ == redirect_target(href@),
{
    let u = String::from_str("https://placeholder").concat(href);
    let pairs = match query_pairs_of(u.as_str()) {
        Some(p) => p,
        None => return String::from_str(href),
    };
    let ghost ps = pair_views(pairs@);
    let n = pairs.len();
    let mut i: usize = 0;
    assert(ps.skip(0) == ps);
    while i < n
        invariant
            n == pairs@.len(),
            ps == pair_views(pairs@),
            ps == url_query_pairs(u@),
            url_parses(u@),
            u@ == "https://placeholder"@ + href@,
            i <= n,
            redirect_pair(ps) == redirect_pair(ps.skip(i as int)),
        decreases n - i,
    {
        assert(ps.skip(i as int)[0] == ps[i as int]);
        assert(ps.skip(i as int).drop_first() == ps.skip(i + 1));
        let (key, val) = (&pairs[i].0, &pairs[i].1);
        let k = key.as_str();
        let v = val.as_str();
        if (str_eq(k, "q") || str_eq(k, "uddg")) && (starts_with(v, "http://") || starts_with(v, "https://")) {
            assert(ps[i as int] == (k@, v@));
            assert(redirect_pair(ps.skip(i as int)) == Some(v@));
            return String::from_str(v);
        }
        i = i + 1;
    }
    String::from_str(href)
}

/// The trimmed texts of `elems` that are not empty, in order.
pub open spec fn nonblank_texts(elems: Seq<(Seq<char>, Option<Seq<char>>)>) -> Seq<Seq<char>>
    decreases elems.len(),
{
    if elems.len() == 0 {
        Seq::empty()
    } else {
        let rest = nonblank_texts(elems.drop_last());
        let t = trim_spec(elems.last().0);
        if t.len() > 0 {
            rest.push(t)
        } else {
            rest
        }
    }
}

/// The links among `elems`: trimmed text and resolved `href` (an absent `href` taken as
/// empty), keeping those whose resolved URL is not empty.
pub open spec fn page_links(elems: Seq<(Seq<char>, Option<Seq<char>>)>) -> Seq<(Seq<char>, Seq<char>)>
    decreases elems.len(),
{
    if elems.len() == 0 {
        Seq::empty()
    } else {
        let rest = page_links(elems.drop_last());
        let e = elems.last();
        let href = match e.1 {
            Some(h) => h,
            None => Seq::empty(),
        };
        let resolved = redirect_target(href);
        if resolved.len() > 0 {
            rest.push((trim_spec(e.0), resolved))
        } else {
            rest
        }
    }
}

/// The title: the trimmed text of the first `title` element, or `(no title)`.
pub open spec fn page_title(titles: Seq<(Seq<char>, Option<Seq<char>>)>) -> Seq<char> {
    if titles.len() > 0 {
        trim_spec(titles[0].0)
    } else {
        "(no title)"@
    }
}

/// What the browser takes from the page `html`.
pub open spec fn parsed_page(html: Seq<char>) -> ParsedPageView {
    ParsedPageView {
        title: page_title(matched(html, "title"@, "href"@)),
        headings: nonblank_texts(matched(html, "h1, h2, h3"@, "href"@)),
        links: page_links(matched(html, "a[href]"@, "href"@)),
        text: nonblank_texts(matched(html, "p, li, td, th, pre, blockquote"@, "href"@)),
    }
}

fn nonblank_texts_exec(elems: &Vec<(String, Option<String>)>) -> (r: Vec<String>)
    ensures
        string_views(r@) == nonblank_texts(element_views(elems@)),
{
    let ghost es = element_views(elems@);
    let mut out: Vec<String> = Vec::new();
    let n = elems.len();
    let mut i: usize = 0;
    while i < n
        invariant
            n == elems@.len(),
            es == element_views(elems@),
            i <= n,
            string_views(out@) == nonblank_texts(es.take(i as int)),
        decreases n - i,
    {
        assert(es.take(i + 1).drop_last() == es.take(i as int));
        assert(es.take(i + 1).last() == es[i as int]);
        let t = trim(elems[i].0.as_str());
        if t.unicode_len() > 0 {
            out.push(t.to_owned());
            assert(string_views(out@) =~= nonblank_texts(es.take(i as int)).push(t@));
        }
        i = i + 1;
    }
    assert(es.take(n as int) == es);
    out
}

fn page_links_exec(elems: &Vec<(String, Option<String>)>) -> (r: Vec<(String, String)>)
    ensures
        pair_views(r@) == page_links(element_views(elems@)),
{
    let ghost es = element_views(elems@);
    let mut out: Vec<(String, String)> = Vec::new();
    let n = elems.len();
    let mut i: usize = 0;
    while i < n
        invariant
            n == elems@.len(),
            es == element_views(elems@),
            i <= n,
            pair_views(out@) == page_links(es.take(i as int)),
        decreases n - i,
    {
        assert(es.take(i + 1).drop_last() == es.take(i as int));
        assert(es.take(i + 1).last() == es[i as int]);
        let href: &str = match &elems[i].1 {
            Some(h) => h.as_str(),
            None => {
                proof {
                    reveal_strlit("");
                }
                ""
            },
        };
        let resolved = resolve_redirect(href);
        if resolved.unicode_len() > 0 {
            let text = trim(elems[i].0.as_str()).to_owned();
            let ghost tv = text@;
            let ghost rv = resolved@;
            out.push((text, resolved));
            assert(pair_views(out@) =~= page_links(es.take(i as int)).push((tv, rv)));
        }
        i = i + 1;
    }
    assert(es.take(n as int) == es);
    out
}

/// Takes raw HTML and pulls out the title, headings, links and readable text.
pub fn parse_html(html: &str) -> (r: ParsedPage)
    ensures
        r@ == parsed_page(html@),
{
    let titles = matched_exec(html, "title", "href");
    let title = if titles.len() > 0 {
        trim(titles[0].0.as_str()).to_owned()
    } else {
        String::from_str("(no title)")
    };
    let heading_elems = matched_exec(html, "h1, h2, h3", "href");
    let headings = nonblank_texts_exec(&heading_elems);
    let link_elems = matched_exec(html, "a[href]", "href");
    let links = page_links_exec(&link_elems);
    let text_elems = matched_exec(html, "p, li, td, th, pre, blockquote", "href");
    let text = nonblank_texts_exec(&text_elems);
    ParsedPage { title, headings, links, text }
}


/// Headings and readable text are never empty and carry no white space at either end.
pub proof fn lemma_texts_nonblank(elems: Seq<(Seq<char>, Option<Seq<char>>)>)
    ensures
        forall|i: int|
            0 <= i < nonblank_texts(elems).len() ==> (#[trigger] nonblank_texts(elems)[i]).len() > 0
                && trim_spec(nonblank_texts(elems)[i]) == nonblank_texts(elems)[i],
    decreases elems.len(),
{
    if elems.len() > 0 {
        let rest = nonblank_texts(elems.drop_last());
        lemma_texts_nonblank(elems.drop_last());
        lemma_trim_idempotent(elems.last().0);
        let r = nonblank_texts(elems);
        assert forall|i: int| 0 <= i < r.len() implies (#[trigger] r[i]).len() > 0 && trim_spec(r[i]) == r[i] by {
            if i < rest.len() {
                assert(r[i] == rest[i]);
            }
        }
    }
}

/// Every link of a page has a non-empty URL and a trimmed text.
pub proof fn lemma_links_have_urls(elems: Seq<(Seq<char>, Option<Seq<char>>)>)
    ensures
        forall|i: int|
            0 <= i < page_links(elems).len() ==> (#[trigger] page_links(elems)[i]).1.len() > 0
                && trim_spec(page_links(elems)[i].0) == page_links(elems)[i].0,
    decreases elems.len(),
{
    if elems.len() > 0 {
        let rest = page_links(elems.drop_last());
        lemma_links_have_urls(elems.drop_last());
        lemma_trim_idempotent(elems.last().0);
        let r = page_links(elems);
        assert forall|i: int| 0 <= i < r.len() implies (#[trigger] r[i]).1.len() > 0 && trim_spec(r[i].0) == r[i].0 by {
            if i < rest.len() {
                assert(r[i] == rest[i]);
            }
        }
    }
}

proof fn lemma_redirect_pair_is_web_url(pairs: Seq<(Seq<char>, Seq<char>)>)
    ensures
        redirect_pair(pairs) matches Some(v) ==> has_prefix(v, "http://"@) || has_prefix(v, "https://"@),
    decreases pairs.len(),
{
    if pairs.len() > 0 {
        lemma_redirect_pair_is_web_url(pairs.drop_first());
    }
}

/// A link leads either where its `href` says or to an `http://` or `https://` URL
/// taken out of a redirect.
pub proof fn lemma_redirect_target_shape(href: Seq<char>)
    ensures
        redirect_target(href) == href || has_prefix(redirect_target(href), "http://"@) || has_prefix(
            redirect_target(href),
            "https://"@,
        ),
{
    lemma_redirect_pair_is_web_url(url_query_pairs("https://placeholder"@ + href));
}

/// The URL an element's `href` gives once redirects are resolved; an absent `href`
/// counts as empty.
pub open spec fn resolved_href(e: (Seq<char>, Option<Seq<char>>)) -> Seq<char> {
    match e.1 {
        Some(h) => redirect_target(h),
        None => redirect_target(Seq::empty()),
    }
}

/// Links are dropped only for an empty URL: when every element's resolved URL is
/// non-empty, each element gives exactly one link, in order, with its trimmed text
/// (which may be empty) and its resolved URL.
pub proof fn lemma_every_link_kept(elems: Seq<(Seq<char>, Option<Seq<char>>)>)
    requires
        forall|i: int| 0 <= i < elems.len() ==> resolved_href(#[trigger] elems[i]).len() > 0,
    ensures
        page_links(elems).len() == elems.len(),
        forall|i: int|
            0 <= i < elems.len() ==> #[trigger] page_links(elems)[i] == (
                trim_spec(elems[i].0),
                resolved_href(elems[i]),
            ),
    decreases elems.len(),
{
    if elems.len() > 0 {
        let init = elems.drop_last();
        assert forall|i: int| 0 <= i < init.len() implies resolved_href(#[trigger] init[i]).len() > 0 by {
            assert(init[i] == elems[i]);
        }
        lemma_every_link_kept(init);
        let e = elems.last();
        assert(resolved_href(elems[elems.len() - 1]).len() > 0);
        assert forall|i: int| 0 <= i < elems.len() implies #[trigger] page_links(elems)[i] == (
            trim_spec(elems[i].0),
            resolved_href(elems[i]),
        ) by {
            if i < init.len() {
                assert(init[i] == elems[i]);
                assert(page_links(elems)[i] == page_links(init)[i]);
            }
        }
    }
}

/// A link whose URL is empty is the only kind dropped: the links of a page number at
/// most its `a[href]` elements, and exactly as many when each resolves to a non-empty
/// URL, whatever the links' texts.
pub proof fn lemma_page_links_per_element(html: Seq<char>)
    ensures
        ({
            let elems = matched(html, "a[href]"@, "href"@);
            &&& parsed_page(html).links.len() <= elems.len()
            &&& (forall|i: int| 0 <= i < elems.len() ==> resolved_href(#[trigger] elems[i]).len() > 0)
                ==> parsed_page(html).links.len() == elems.len() && forall|i: int|
                0 <= i < elems.len() ==> #[trigger] parsed_page(html).links[i] == (
                    trim_spec(elems[i].0),
                    resolved_href(elems[i]),
                )
        }),
{
    let elems = matched(html, "a[href]"@, "href"@);
    lemma_links_at_most(elems);
    if forall|i: int| 0 <= i < elems.len() ==> resolved_href(#[trigger] elems[i]).len() > 0 {
        lemma_every_link_kept(elems);
    }
}

proof fn lemma_links_at_most(elems: Seq<(Seq<char>, Option<Seq<char>>)>)
    ensures
        page_links(elems).len() <= elems.len(),
    decreases elems.len(),
{
    if elems.len() > 0 {
        lemma_links_at_most(elems.drop_last());
    }
}

/// Headings and text entries are dropped only when blank: when every element's trimmed
/// text is non-empty, each element gives exactly one entry, in order, its trimmed text.
pub proof fn lemma_every_text_kept(elems: Seq<(Seq<char>, Option<Seq<char>>)>)
    requires
        forall|i: int| 0 <= i < elems.len() ==> trim_spec((#[trigger] elems[i]).0).len() > 0,
    ensures
        nonblank_texts(elems).len() == elems.len(),
        forall|i: int| 0 <= i < elems.len() ==> #[trigger] nonblank_texts(elems)[i] == trim_spec(elems[i].0),
    decreases elems.len(),
{
    if elems.len() > 0 {
        let init = elems.drop_last();
        assert forall|i: int| 0 <= i < init.len() implies trim_spec((#[trigger] init[i]).0).len() > 0 by {
            assert(init[i] == elems[i]);
        }
        lemma_every_text_kept(init);
        assert(trim_spec(elems[elems.len() - 1].0).len() > 0);
        assert forall|i: int| 0 <= i < elems.len() implies #[trigger] nonblank_texts(elems)[i] == trim_spec(elems[i].0) by {
            if i < init.len() {
                assert(init[i] == elems[i]);
                assert(nonblank_texts(elems)[i] == nonblank_texts(init)[i]);
            }
        }
    }
}

/// The title is the trimmed text of the first `title` element, or `(no title)` when the
/// page has none; headings come from `h1`, `h2` and `h3` elements and text from
/// paragraphs, list items, table cells, code blocks and quotes.
pub proof fn lemma_page_parts(html: Seq<char>)
    ensures
        ({
            let titles = matched(html, "title"@, "href"@);
            &&& titles.len() > 0 ==> parsed_page(html).title == trim_spec(titles[0].0)
            &&& titles.len() == 0 ==> parsed_page(html).title == "(no title)"@
            &&& parsed_page(html).headings == nonblank_texts(matched(html, "h1, h2, h3"@, "href"@))
            &&& parsed_page(html).text == nonblank_texts(
                matched(html, "p, li, td, th, pre, blockquote"@, "href"@),
            )
        }),
{
}

} // verus!
