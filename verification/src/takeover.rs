//! Subdomain-takeover checks: which hosting services a host name points at, and
//! whether a response from it shows an unclaimed resource.

use vstd::prelude::*;

use crate::text::{
    all_ascii, ascii_lowercase, contains, contains_seq, is_white_space, lemma_ascii_lowercase,
    lemma_trim_unchanged, lemma_trimmed_host_shape, lowercase, opt_string_view, or_dash, text_or_dash, to_lowercase, trim,
    trim_end_char, trim_end_char_spec, trim_spec,
};

verus! {

/// A third-party service whose dangling host names can be claimed by anyone.
pub struct Service {
    pub name: &'static str,
    /// Host-name fragments (usually suffixes) that identify the service.
    pub cnames: Vec<&'static str>,
    /// Text that the service answers with for an unclaimed resource.
    pub fingerprints: Vec<&'static str>,
    /// True when the host name no longer resolving is itself the takeover signal.
    pub nxdomain: bool,
}

/// The contents of a [`Service`] as plain sequences.
pub struct ServiceView {
    pub name: Seq<char>,
    pub cnames: Seq<Seq<char>>,
    pub fingerprints: Seq<Seq<char>>,
    pub nxdomain: bool,
}

pub open spec fn str_views(v: Seq<&'static str>) -> Seq<Seq<char>> {
    v.map_values(|s: &'static str| s@)
}

impl View for Service {
    type V = ServiceView;

    open spec fn view(&self) -> ServiceView {
        ServiceView {
            name: self.name@,
            cnames: str_views(self.cnames@),
            fingerprints: str_views(self.fingerprints@),
            nxdomain: self.nxdomain,
        }
    }
}

/// The known takeover-prone services, in the order in which they are tried.
pub open spec fn service_table() -> Seq<ServiceView> {
    seq![
        ServiceView {
            name: "GitHub Pages"@,
            cnames: seq![".github.io"@],
            fingerprints: seq!["There isn't a GitHub Pages site here"@],
            nxdomain: false,
        },
        ServiceView {
            name: "AWS S3"@,
            cnames: seq![".s3.amazonaws.com"@, ".s3-website"@, ".amazonaws.com"@],
            fingerprints: seq!["NoSuchBucket"@, "The specified bucket does not exist"@],
            nxdomain: false,
        },
        ServiceView {
            name: "Heroku"@,
            cnames: seq![".herokuapp.com"@, ".herokudns.com"@, ".herokussl.com"@],
            fingerprints: seq!["No such app"@, "herokucdn.com/error-pages/no-such-app.html"@],
            nxdomain: false,
        },
        ServiceView {
            name: "Fastly"@,
            cnames: seq![".fastly.net"@],
            fingerprints: seq!["Fastly error: unknown domain"@],
            nxdomain: false,
        },
        ServiceView {
            name: "Shopify"@,
            cnames: seq![".myshopify.com"@],
            fingerprints: seq!["Sorry, this shop is currently unavailable"@],
            nxdomain: false,
        },
        ServiceView {
            name: "Surge.sh"@,
            cnames: seq![".surge.sh"@],
            fingerprints: seq!["project not found"@],
            nxdomain: false,
        },
        ServiceView {
            name: "Bitbucket"@,
            cnames: seq![".bitbucket.io"@],
            fingerprints: seq!["Repository not found"@],
            nxdomain: false,
        },
        ServiceView {
            name: "Ghost"@,
            cnames: seq![".ghost.io"@],
            fingerprints: seq!["The thing you were looking for is no longer here"@, "Domain error"@],
            nxdomain: false,
        },
        ServiceView {
            name: "Zendesk"@,
            cnames: seq![".zendesk.com"@],
            fingerprints: seq!["Help Center Closed"@],
            nxdomain: false,
        },
        ServiceView {
            name: "Pantheon"@,
            cnames: seq![".pantheonsite.io"@],
            fingerprints: seq!["The gods are wise"@, "404 error unknown site!"@],
            nxdomain: false,
        },
        ServiceView {
            name: "Tumblr"@,
            cnames: seq![".domains.tumblr.com"@],
            fingerprints: seq!["Whatever you were looking for doesn't currently exist at this address"@],
            nxdomain: false,
        },
        ServiceView {
            name: "Microsoft Azure"@,
            cnames: seq![".azurewebsites.net"@, ".cloudapp.net"@, ".trafficmanager.net"@, ".blob.core.windows.net"@],
            fingerprints: seq!["404 Web Site not found"@],
            nxdomain: true,
        },
        ServiceView {
            name: "Wordpress"@,
            cnames: seq![".wordpress.com"@],
            fingerprints: seq!["Do you want to register"@],
            nxdomain: false,
        },
    ]
}

/// The services of [`service_table`], as values.
pub fn services() -> (r: Vec<Service>)
    ensures
        r@.len() == service_table().len(),
        forall|i: int| 0 <= i < r@.len() ==> #[trigger] r@[i]@ == service_table()[i],
{
    let r = vec![
        Service {
            name: "GitHub Pages",
            cnames: vec![".github.io"],
            fingerprints: vec!["There isn't a GitHub Pages site here"],
            nxdomain: false,
        },
        Service {
            name: "AWS S3",
            cnames: vec![".s3.amazonaws.com", ".s3-website", ".amazonaws.com"],
            fingerprints: vec!["NoSuchBucket", "The specified bucket does not exist"],
            nxdomain: false,
        },
        Service {
            name: "Heroku",
            cnames: vec![".herokuapp.com", ".herokudns.com", ".herokussl.com"],
            fingerprints: vec!["No such app", "herokucdn.com/error-pages/no-such-app.html"],
            nxdomain: false,
        },
        Service {
            name: "Fastly",
            cnames: vec![".fastly.net"],
            fingerprints: vec!["Fastly error: unknown domain"],
            nxdomain: false,
        },
        Service {
            name: "Shopify",
            cnames: vec![".myshopify.com"],
            fingerprints: vec!["Sorry, this shop is currently unavailable"],
            nxdomain: false,
        },
        Service {
            name: "Surge.sh",
            cnames: vec![".surge.sh"],
            fingerprints: vec!["project not found"],
            nxdomain: false,
        },
        Service {
            name: "Bitbucket",
            cnames: vec![".bitbucket.io"],
            fingerprints: vec!["Repository not found"],
            nxdomain: false,
        },
        Service {
            name: "Ghost",
            cnames: vec![".ghost.io"],
            fingerprints: vec!["The thing you were looking for is no longer here", "Domain error"],
            nxdomain: false,
        },
        Service {
            name: "Zendesk",
            cnames: vec![".zendesk.com"],
            fingerprints: vec!["Help Center Closed"],
            nxdomain: false,
        },
        Service {
            name: "Pantheon",
            cnames: vec![".pantheonsite.io"],
            fingerprints: vec!["The gods are wise", "404 error unknown site!"],
            nxdomain: false,
        },
        Service {
            name: "Tumblr",
            cnames: vec![".domains.tumblr.com"],
            fingerprints: vec!["Whatever you were looking for doesn't currently exist at this address"],
            nxdomain: false,
        },
        Service {
            name: "Microsoft Azure",
            cnames: vec![".azurewebsites.net", ".cloudapp.net", ".trafficmanager.net", ".blob.core.windows.net"],
            fingerprints: vec!["404 Web Site not found"],
            nxdomain: true,
        },
        Service {
            name: "Wordpress",
            cnames: vec![".wordpress.com"],
            fingerprints: vec!["Do you want to register"],
            nxdomain: false,
        },
    ];
    proof {
        assert forall|i: int| 0 <= i < r@.len() implies #[trigger] r@[i]@ == service_table()[i] by {
            assert(str_views(r@[i].cnames@) =~= service_table()[i].cnames);
            assert(str_views(r@[i].fingerprints@) =~= service_table()[i].fingerprints);
        }
    }
    r
}


/// A host name as the checks compare it: trimmed of white space, stripped of trailing
/// dots, and lower-cased.
pub open spec fn normalize_host(h: Seq<char>) -> Seq<char> {
    lowercase(trim_end_char_spec(trim_spec(h), '.'))
}

/// Whether one of the host-name fragments of `s` occurs in `t`.
pub open spec fn service_matches(s: ServiceView, t: Seq<char>) -> bool {
    exists|j: int| 0 <= j < s.cnames.len() && contains_seq(t, #[trigger] s.cnames[j])
}

/// Whether `s` is the first service of the table whose fragments occur in `t`.
pub open spec fn is_first_match(s: ServiceView, t: Seq<char>) -> bool {
    exists|i: int|
        0 <= i < service_table().len() && s == #[trigger] service_table()[i] && service_matches(
            service_table()[i],
            t,
        ) && forall|k: int| 0 <= k < i ==> !service_matches(#[trigger] service_table()[k], t)
}

/// Whether no service of the table has a fragment that occurs in `t`.
pub open spec fn no_match(t: Seq<char>) -> bool {
    forall|k: int| 0 <= k < service_table().len() ==> !service_matches(#[trigger] service_table()[k], t)
}

/// The host normalised by the same steps that `match_service` applies.
fn normalize_host_exec(target: &str) -> (r: String)
    ensures
        r@ == normalize_host(target@),
        all_ascii(target@) ==> r@ == ascii_lowercase(trim_end_char_spec(trim_spec(target@), '.')),
{
    proof {
        lemma_trimmed_host_shape(target@, '.');
    }
    to_lowercase(trim_end_char(trim(target), '.'))
}

fn matches_exec(s: &Service, t: &str) -> (r: bool)
    ensures
        r == service_matches(s@, t@),
{
    let n = s.cnames.len();
    let mut j: usize = 0;
    while j < n
        invariant
            n == s.cnames@.len(),
            j <= n,
            forall|k: int| 0 <= k < j ==> !contains_seq(t@, #[trigger] s@.cnames[k]),
        decreases n - j,
    {
        if contains(t, s.cnames[j]) {
            assert(contains_seq(t@, s@.cnames[j as int]));
            return true;
        }
        j = j + 1;
    }
    false
}

/// The first known service whose host-name fragments occur in the normalised `target`.
pub fn match_service(target: &str) -> (r: Option<Service>)
    ensures
        match r {
            Some(s) => is_first_match(s@, normalize_host(target@)),
            None => no_match(normalize_host(target@)),
        },
        all_ascii(target@) ==> normalize_host(target@) == ascii_lowercase(
            trim_end_char_spec(trim_spec(target@), '.'),
        ),
{
    let t = normalize_host_exec(target);
    let mut table = services();
    let n = table.len();
    let mut i: usize = 0;
    while i < n
        invariant
            n == table@.len(),
            n == service_table().len(),
            i <= n,
            t@ == normalize_host(target@),
            all_ascii(target@) ==> t@ == ascii_lowercase(trim_end_char_spec(trim_spec(target@), '.')),
            forall|k: int| 0 <= k < n ==> #[trigger] table@[k]@ == service_table()[k],
            forall|k: int| 0 <= k < i ==> !service_matches(#[trigger] service_table()[k], t@),
        decreases n - i,
    {
        if matches_exec(&table[i], t.as_str()) {
            let s = table.remove(i);
            assert(s@ == service_table()[i as int]);
            return Some(s);
        }
        i = i + 1;
    }
    None
}

/// Whether the lower-cased `body` contains the lower-cased form of one of the
/// fingerprints of `s`.
pub open spec fn shows_takeover(s: ServiceView, body: Seq<char>) -> bool {
    exists|j: int|
        0 <= j < s.fingerprints.len() && contains_seq(
            lowercase(body),
            lowercase(#[trigger] s.fingerprints[j]),
        )
}

/// Whether every fingerprint of `s` is ASCII text.
pub open spec fn fingerprints_ascii(s: ServiceView) -> bool {
    forall|j: int| 0 <= j < s.fingerprints.len() ==> all_ascii(#[trigger] s.fingerprints[j])
}

/// [`shows_takeover`] with ASCII lower-casing, which is what it is for ASCII text.
pub open spec fn shows_takeover_ascii(s: ServiceView, body: Seq<char>) -> bool {
    exists|j: int|
        0 <= j < s.fingerprints.len() && contains_seq(
            ascii_lowercase(body),
            ascii_lowercase(#[trigger] s.fingerprints[j]),
        )
}

/// The fingerprints of all known services are ASCII text.
pub proof fn lemma_service_table_ascii()
    ensures
        forall|i: int| 0 <= i < service_table().len() ==> fingerprints_ascii(#[trigger] service_table()[i]),
{
    reveal_strlit("There isn't a GitHub Pages site here");
    reveal_strlit("NoSuchBucket");
    reveal_strlit("The specified bucket does not exist");
    reveal_strlit("No such app");
    reveal_strlit("herokucdn.com/error-pages/no-such-app.html");
    reveal_strlit("Fastly error: unknown domain");
    reveal_strlit("Sorry, this shop is currently unavailable");
    reveal_strlit("project not found");
    reveal_strlit("Repository not found");
    reveal_strlit("The thing you were looking for is no longer here");
    reveal_strlit("Domain error");
    reveal_strlit("Help Center Closed");
    reveal_strlit("The gods are wise");
    reveal_strlit("404 error unknown site!");
    reveal_strlit("Whatever you were looking for doesn't currently exist at this address");
    reveal_strlit("404 Web Site not found");
    reveal_strlit("Do you want to register");
}

/// Text added around a body that shows an unclaimed resource does not hide it.
pub proof fn lemma_padding_keeps_takeover(s: ServiceView, x: Seq<char>, b: Seq<char>, y: Seq<char>)
    requires
        shows_takeover_ascii(s, b),
    ensures
        shows_takeover_ascii(s, x + b + y),
{
    let j = choose|j: int|
        0 <= j < s.fingerprints.len() && contains_seq(
            ascii_lowercase(b),
            ascii_lowercase(#[trigger] s.fingerprints[j]),
        );
    let n = ascii_lowercase(s.fingerprints[j]);
    let i = choose|i: int| crate::text::occurs_at(ascii_lowercase(b), n, i);
    let whole = ascii_lowercase(x + b + y);
    assert(whole =~= ascii_lowercase(x) + ascii_lowercase(b) + ascii_lowercase(y));
    assert(whole.subrange(i + x.len(), i + x.len() + n.len()) =~= ascii_lowercase(b).subrange(i, i + n.len()));
    assert(crate::text::occurs_at(whole, n, i + x.len()));
}

/// Whether a response body from a host of `service` shows an unclaimed resource.
pub fn body_indicates_takeover(service: &Service, body: &str) -> (r: bool)
    ensures
        r == shows_takeover(service@, body@),
        all_ascii(body@) && fingerprints_ascii(service@) ==> r == shows_takeover_ascii(service@, body@),
{
    let low = to_lowercase(body);
    let n = service.fingerprints.len();
    let mut j: usize = 0;
    while j < n
        invariant
            n == service.fingerprints@.len(),
            j <= n,
            low@ == lowercase(body@),
            all_ascii(body@) ==> low@ == ascii_lowercase(body@),
            forall|k: int|
                0 <= k < j ==> (all_ascii(service@.fingerprints[k]) ==> lowercase(#[trigger] service@.fingerprints[k])
                    == ascii_lowercase(service@.fingerprints[k])),
            forall|k: int|
                0 <= k < j ==> !contains_seq(
                    lowercase(body@),
                    lowercase(#[trigger] service@.fingerprints[k]),
                ),
        decreases n - j,
    {
        let fp = to_lowercase(service.fingerprints[j]);
        if contains(low.as_str(), fp.as_str()) {
            assert(contains_seq(lowercase(body@), lowercase(service@.fingerprints[j as int])));
            return true;
        }
        j = j + 1;
    }
    false
}


/// The outcome of a takeover check.
pub struct TakeoverVerdict {
    pub target: String,
    pub vulnerable: bool,
    pub service: Option<String>,
    pub evidence: String,
}

/// The contents of a [`TakeoverVerdict`] as plain values.
pub struct TakeoverVerdictView {
    pub target: Seq<char>,
    pub vulnerable: bool,
    pub service: Option<Seq<char>>,
    pub evidence: Seq<char>,
}

impl View for TakeoverVerdict {
    type V = TakeoverVerdictView;

    open spec fn view(&self) -> TakeoverVerdictView {
        TakeoverVerdictView {
            target: self.target@,
            vulnerable: self.vulnerable,
            service: opt_string_view(self.service),
            evidence: self.evidence@,
        }
    }
}

/// The service line of a verdict's terminal view: the service, or a dash.
pub fn verdict_service_text(v: &TakeoverVerdict) -> (r: String)
    ensures
        r@ == or_dash(v@.service),
{
    text_or_dash(&v.service)
}

/// The status word of a verdict's terminal view.
pub open spec fn verdict_status_spec(vulnerable: bool) -> Seq<char> {
    if vulnerable {
        "VULNERABLE"@
    } else {
        "Not vulnerable"@
    }
}

/// The status word of a verdict's terminal view.
pub fn verdict_status_text(v: &TakeoverVerdict) -> (r: &'static str)
    ensures
        r@ == verdict_status_spec(v.vulnerable),
{
    if v.vulnerable {
        "VULNERABLE"
    } else {
        "Not vulnerable"
    }
}

/// A request to fetch a host of a known service, and what the check knows so far.
pub struct TakeoverProbe {
    /// The normalised host name.
    pub target: String,
    /// The service that the host name points at.
    pub service: Service,
    /// The URL to fetch.
    pub url: String,
}

/// The first step of a takeover check: either the verdict, or a probe to make.
pub enum CheckStep {
    Done(TakeoverVerdict),
    Probe(TakeoverProbe),
}

/// An ASCII host name that does not end in white space once trailing dots are taken
/// off: normalising such a host a second time changes nothing.
pub open spec fn stable_ascii_host(h: Seq<char>) -> bool {
    let u = trim_end_char_spec(trim_spec(h), '.');
    all_ascii(h) && (u.len() == 0 || !is_white_space(u.last()))
}

/// At most one service is the first match for a host.
pub proof fn lemma_first_match_unique(a: ServiceView, b: ServiceView, t: Seq<char>)
    requires
        is_first_match(a, t),
        is_first_match(b, t),
    ensures
        a == b,
{
    let i = choose|i: int|
        0 <= i < service_table().len() && a == #[trigger] service_table()[i] && service_matches(
            service_table()[i],
            t,
        ) && forall|k: int| 0 <= k < i ==> !service_matches(#[trigger] service_table()[k], t);
    let j = choose|j: int|
        0 <= j < service_table().len() && b == #[trigger] service_table()[j] && service_matches(
            service_table()[j],
            t,
        ) && forall|k: int| 0 <= k < j ==> !service_matches(#[trigger] service_table()[k], t);
    if i < j {
        assert(!service_matches(service_table()[i], t));
    } else if j < i {
        assert(!service_matches(service_table()[j], t));
    }
}

/// The verdict for a host that points at no known service.
pub open spec fn unknown_service_verdict(t: Seq<char>) -> TakeoverVerdictView {
    TakeoverVerdictView {
        target: t,
        vulnerable: false,
        service: None,
        evidence: "Target is not a known takeover-prone service."@,
    }
}

/// Starts a takeover check of `host`. The host is normalised and matched against the
/// known services; with no match the verdict is final, otherwise the host's root URL
/// must be fetched and the result handed to [`check_response`].
pub fn check(host: &str) -> (r: CheckStep)
    ensures
        ({
            let t = normalize_host(host@);
            match r {
                CheckStep::Done(v) => no_match(normalize_host(t)) && v@ == unknown_service_verdict(
                    t,
                ),
                CheckStep::Probe(p) => {
                    &&& p.target@ == t
                    &&& is_first_match(p.service@, normalize_host(t))
                    &&& p.url@ == "https://"@ + t + "/"@
                }
            }
        }),
        stable_ascii_host(host@) ==> match r {
            CheckStep::Done(_) => no_match(normalize_host(host@)),
            CheckStep::Probe(p) => is_first_match(p.service@, normalize_host(host@)),
        },
{
    let t = normalize_host_exec(host);
    let found = match_service(t.as_str());
    proof {
        if stable_ascii_host(host@) {
            let u = trim_end_char_spec(trim_spec(host@), '.');
            lemma_trimmed_host_shape(host@, '.');
            lemma_ascii_lowercase(u);
            assert(t@ == ascii_lowercase(u));
            if t@.len() > 0 {
                assert(t@[0] == crate::text::ascii_lower(u[0]));
                assert(t@.last() == t@[t@.len() - 1]);
                assert(u.last() == u[u.len() - 1]);
            }
            lemma_trim_unchanged(t@);
            assert(trim_end_char_spec(t@, '.') == t@);
            assert(normalize_host(t@) == t@);
        }
    }
    match found {
        None => CheckStep::Done(
            TakeoverVerdict {
                target: t,
                vulnerable: false,
                service: None,
                evidence: String::from_str("Target is not a known takeover-prone service."),
            },
        ),
        Some(service) => {
            let url = String::from_str("https://").concat(t.as_str()).concat("/");
            CheckStep::Probe(TakeoverProbe { target: t, service, url })
        },
    }
}

/// The verdict on a probed host, given what fetching its URL gave: the status and body
/// of the response, or the reason it could not be fetched.
pub open spec fn response_verdict(
    target: Seq<char>,
    service: ServiceView,
    response: Result<Seq<char>, Seq<char>>,
) -> TakeoverVerdictView {
    match response {
        Ok(body) => if shows_takeover(service, body) {
            TakeoverVerdictView {
                target,
                vulnerable: true,
                service: Some(service.name),
                evidence: service.name
                    + " returned an 'unclaimed resource' response — this host can likely be taken over."@,
            }
        } else {
            TakeoverVerdictView {
                target,
                vulnerable: false,
                service: Some(service.name),
                evidence: service.name + " target appears live/claimed."@,
            }
        },
        Err(e) => if service.nxdomain {
            TakeoverVerdictView {
                target,
                vulnerable: true,
                service: Some(service.name),
                evidence: service.name
                    + " target does not resolve — the backing resource looks unclaimed."@,
            }
        } else {
            TakeoverVerdictView {
                target,
                vulnerable: false,
                service: Some(service.name),
                evidence: "Could not reach target ("@ + e + ")."@,
            }
        },
    }
}

/// The body of a response, or the reason a fetch failed, as plain sequences.
pub open spec fn response_view(response: &Result<(u16, String), String>) -> Result<Seq<char>, Seq<char>> {
    match response {
        Ok((_, body)) => Ok(body@),
        Err(e) => Err(e@),
    }
}

/// Finishes a takeover check from the outcome of fetching the probe's URL.
pub fn check_response(probe: TakeoverProbe, response: &Result<(u16, String), String>) -> (r: TakeoverVerdict)
    ensures
        r@ == response_verdict(probe.target@, probe.service@, response_view(response)),
{
    let name = probe.service.name;
    match response {
        Ok((_status, body)) => {
            if body_indicates_takeover(&probe.service, body.as_str()) {
                TakeoverVerdict {
                    target: probe.target,
                    vulnerable: true,
                    service: Some(String::from_str(name)),
                    evidence: String::from_str(name).concat(
                        " returned an 'unclaimed resource' response — this host can likely be taken over.",
                    ),
                }
            } else {
                TakeoverVerdict {
                    target: probe.target,
                    vulnerable: false,
                    service: Some(String::from_str(name)),
                    evidence: String::from_str(name).concat(" target appears live/claimed."),
                }
            }
        },
        Err(e) => {
            if probe.service.nxdomain {
                TakeoverVerdict {
                    target: probe.target,
                    vulnerable: true,
                    service: Some(String::from_str(name)),
                    evidence: String::from_str(name).concat(
                        " target does not resolve — the backing resource looks unclaimed.",
                    ),
                }
            } else {
                TakeoverVerdict {
                    target: probe.target,
                    vulnerable: false,
                    service: Some(String::from_str(name)),
                    evidence: String::from_str("Could not reach target (").concat(e.as_str()).concat(
                        ").",
                    ),
                }
            }
        },
    }
}


/// A verdict only calls a host vulnerable when it names the service, and it always
/// reports the probed target.
pub proof fn lemma_vulnerable_names_service(
    target: Seq<char>,
    service: ServiceView,
    response: Result<Seq<char>, Seq<char>>,
)
    ensures
        response_verdict(target, service, response).target == target,
        response_verdict(target, service, response).service == Some(service.name),
        response_verdict(target, service, response).vulnerable ==> (match response {
            Ok(body) => shows_takeover(service, body),
            Err(_) => service.nxdomain,
        }),
{
}

/// A host that reaches a service's fingerprint is vulnerable, whatever else the body
/// holds.
pub proof fn lemma_fingerprint_means_vulnerable(target: Seq<char>, service: ServiceView, body: Seq<char>, j: int)
    requires
        0 <= j < service.fingerprints.len(),
        contains_seq(lowercase(body), lowercase(service.fingerprints[j])),
    ensures
        response_verdict(target, service, Ok(body)).vulnerable,
{
}

/// A host that points at no known service is never found vulnerable.
pub proof fn lemma_unknown_service_not_vulnerable(t: Seq<char>)
    ensures
        !unknown_service_verdict(t).vulnerable,
        unknown_service_verdict(t).service is None,
{
}

/// A body shows an unclaimed resource exactly when one of the service's fingerprints,
/// lower-cased, occurs in the lower-cased body, for any text, ASCII or not; so a
/// response is judged vulnerable exactly then.
pub proof fn lemma_takeover_iff_fingerprint(target: Seq<char>, s: ServiceView, body: Seq<char>)
    ensures
        shows_takeover(s, body) <==> exists|j: int|
            0 <= j < s.fingerprints.len() && contains_seq(lowercase(body), lowercase(#[trigger] s.fingerprints[j])),
        response_verdict(target, s, Ok(body)).vulnerable <==> exists|j: int|
            0 <= j < s.fingerprints.len() && contains_seq(lowercase(body), lowercase(#[trigger] s.fingerprints[j])),
{
}

/// A probed host is vulnerable exactly when its response body shows one of the
/// service's fingerprints or, when it could not be fetched, when the service frees
/// dangling host names; the verdict keeps the target and names the service.
pub proof fn lemma_verdict_vulnerable_iff(target: Seq<char>, s: ServiceView, response: Result<Seq<char>, Seq<char>>)
    ensures
        response_verdict(target, s, response).vulnerable <==> match response {
            Ok(body) => exists|j: int|
                0 <= j < s.fingerprints.len() && contains_seq(lowercase(body), lowercase(#[trigger] s.fingerprints[j])),
            Err(_) => s.nxdomain,
        },
        response_verdict(target, s, response).target == target,
        response_verdict(target, s, response).service == Some(s.name),
        (response matches Err(e) && !s.nxdomain) ==> response_verdict(target, s, response).evidence
            == "Could not reach target ("@ + response->Err_0 + ")."@,
{
}

/// The service found for a host is a known service one of whose host-name fragments
/// occurs in the normalised host, and no service listed before it has one that does;
/// when none is found, no fragment of any service occurs in it.
pub proof fn lemma_match_is_first_with_fragment(s: ServiceView, t: Seq<char>)
    ensures
        is_first_match(s, t) ==> exists|i: int|
            0 <= i < service_table().len() && s == #[trigger] service_table()[i] && (exists|j: int|
                0 <= j < s.cnames.len() && contains_seq(t, #[trigger] s.cnames[j])) && (forall|k: int, j: int|
                0 <= k < i && 0 <= j < service_table()[k].cnames.len() ==> !contains_seq(
                    t,
                    #[trigger] service_table()[k].cnames[j],
                )),
        no_match(t) ==> forall|k: int, j: int|
            0 <= k < service_table().len() && 0 <= j < service_table()[k].cnames.len() ==> !contains_seq(
                t,
                #[trigger] service_table()[k].cnames[j],
            ),
{
    if is_first_match(s, t) {
        let i = choose|i: int|
            0 <= i < service_table().len() && s == #[trigger] service_table()[i] && service_matches(
                service_table()[i],
                t,
            ) && forall|k: int| 0 <= k < i ==> !service_matches(#[trigger] service_table()[k], t);
        assert forall|k: int, j: int|
            0 <= k < i && 0 <= j < service_table()[k].cnames.len() implies !contains_seq(
                t,
                #[trigger] service_table()[k].cnames[j],
            ) by {
            assert(!service_matches(service_table()[k], t));
        }
    }
    if no_match(t) {
        assert forall|k: int, j: int|
            0 <= k < service_table().len() && 0 <= j < service_table()[k].cnames.len() implies !contains_seq(
                t,
                #[trigger] service_table()[k].cnames[j],
            ) by {
            assert(!service_matches(service_table()[k], t));
        }
    }
}

} // verus!
