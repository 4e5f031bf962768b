//! IP intelligence: reading a registry (RDAP) answer about an IP network, and telling
//! whether its owner is a known hosting or CDN provider.

use vstd::prelude::*;

use crate::json::{
    json_array_at, json_as_array, json_as_str, json_as_u64, json_document, json_error, json_get,
    json_str_at, json_view, lemma_get_smaller, lemma_views_of, parse_json, view_opt, views_of,
    JsonValue, JsonView,
};
use crate::text::{
    contains, contains_seq, decimal, lowercase, opt_string_view, or_dash, text_or_dash, to_lowercase, trim, trim_spec,
    u64_to_decimal,
};

verus! {

/// What is known about the network that an IP address belongs to.
pub struct IpInfo {
    pub ip: String,
    /// The registry's name for the network, such as `CLOUDFLARENET`.
    pub network_name: Option<String>,
    /// The registry's handle for the network.
    pub handle: Option<String>,
    /// The registered organisation.
    pub org: Option<String>,
    /// The owning address block.
    pub cidr: Option<String>,
    /// The ISO country code.
    pub country: Option<String>,
    /// The provider's usual name when it is a known hosting or CDN provider.
    pub known_host: Option<String>,
    /// Whether `known_host` is present.
    pub is_known_host: bool,
    /// Which registry service answered.
    pub source: String,
}

/// The contents of an [`IpInfo`] as plain values.
pub struct IpInfoView {
    pub ip: Seq<char>,
    pub network_name: Option<Seq<char>>,
    pub handle: Option<Seq<char>>,
    pub org: Option<Seq<char>>,
    pub cidr: Option<Seq<char>>,
    pub country: Option<Seq<char>>,
    pub known_host: Option<Seq<char>>,
    pub is_known_host: bool,
    pub source: Seq<char>,
}

impl View for IpInfo {
    type V = IpInfoView;

    open spec fn view(&self) -> IpInfoView {
        IpInfoView {
            ip: self.ip@,
            network_name: opt_string_view(self.network_name),
            handle: opt_string_view(self.handle),
            org: opt_string_view(self.org),
            cidr: opt_string_view(self.cidr),
            country: opt_string_view(self.country),
            known_host: opt_string_view(self.known_host),
            is_known_host: self.is_known_host,
            source: self.source@,
        }
    }
}

/// Known hosting, CDN and cloud operators: a lower-case fragment of a registry name
/// and the provider's usual name. The first fragment that matches wins.
pub open spec fn known_hosts() -> Seq<(Seq<char>, Seq<char>)> {
    seq![
        ("cloudflare"@, "Cloudflare"@),
        ("cloudfront"@, "Amazon CloudFront"@),
        ("amazon"@, "Amazon AWS"@),
        ("aws"@, "Amazon AWS"@),
        ("google"@, "Google Cloud"@),
        ("gogl"@, "Google Cloud"@),
        ("goog"@, "Google Cloud"@),
        ("microsoft"@, "Microsoft Azure"@),
        ("azure"@, "Microsoft Azure"@),
        ("msft"@, "Microsoft Azure"@),
        ("fastly"@, "Fastly"@),
        ("akamai"@, "Akamai"@),
        ("linode"@, "Akamai (Linode)"@),
        ("vercel"@, "Vercel"@),
        ("netlify"@, "Netlify"@),
        ("digitalocean"@, "DigitalOcean"@),
        ("digital ocean"@, "DigitalOcean"@),
        ("ovh"@, "OVH"@),
        ("hetzner"@, "Hetzner"@),
        ("github"@, "GitHub"@),
        ("oracle"@, "Oracle Cloud"@),
        ("render"@, "Render"@),
        ("heroku"@, "Heroku"@),
        ("digital realty"@, "Digital Realty"@),
    ]
}

fn known_hosts_exec() -> (r: Vec<(&'static str, &'static str)>)
    ensures
        r@.len() == known_hosts().len(),
        forall|i: int| 0 <= i < r@.len() ==> (#[trigger] r@[i]).0@ == known_hosts()[i].0 && r@[i].1@ == known_hosts()[i].1,
{
    vec![
        ("cloudflare", "Cloudflare"),
        ("cloudfront", "Amazon CloudFront"),
        ("amazon", "Amazon AWS"),
        ("aws", "Amazon AWS"),
        ("google", "Google Cloud"),
        ("gogl", "Google Cloud"),
        ("goog", "Google Cloud"),
        ("microsoft", "Microsoft Azure"),
        ("azure", "Microsoft Azure"),
        ("msft", "Microsoft Azure"),
        ("fastly", "Fastly"),
        ("akamai", "Akamai"),
        ("linode", "Akamai (Linode)"),
        ("vercel", "Vercel"),
        ("netlify", "Netlify"),
        ("digitalocean", "DigitalOcean"),
        ("digital ocean", "DigitalOcean"),
        ("ovh", "OVH"),
        ("hetzner", "Hetzner"),
        ("github", "GitHub"),
        ("oracle", "Oracle Cloud"),
        ("render", "Render"),
        ("heroku", "Heroku"),
        ("digital realty", "Digital Realty"),
    ]
}

/// The provider of the first entry of [`known_hosts`], from the `i`-th on, whose
/// fragment occurs in `hay`.
pub open spec fn known_host_from(hay: Seq<char>, i: int) -> Option<Seq<char>>
    decreases known_hosts().len() - i,
{
    if i < 0 || i >= known_hosts().len() {
        None
    } else if contains_seq(hay, known_hosts()[i].0) {
        Some(known_hosts()[i].1)
    } else {
        known_host_from(hay, i + 1)
    }
}

pub open spec fn or_empty(o: Option<Seq<char>>) -> Seq<char> {
    match o {
        Some(s) => s,
        None => Seq::empty(),
    }
}

/// The text that names are matched in: network name, organisation and handle,
/// separated by spaces and lower-cased.
pub open spec fn classify_haystack(
    name: Option<Seq<char>>,
    org: Option<Seq<char>>,
    handle: Option<Seq<char>>,
) -> Seq<char> {
    lowercase(or_empty(name) + " "@ + or_empty(org) + " "@ + or_empty(handle))
}

/// The known provider that a network with these registry names belongs to.
pub open spec fn classify_spec(
    name: Option<Seq<char>>,
    org: Option<Seq<char>>,
    handle: Option<Seq<char>>,
) -> Option<Seq<char>> {
    known_host_from(classify_haystack(name, org, handle), 0)
}

pub open spec fn opt_str_view(o: Option<&str>) -> Option<Seq<char>> {
    match o {
        Some(s) => Some(s@),
        None => None,
    }
}

fn or_empty_exec(o: Option<&str>) -> (r: &str)
    ensures
        r@ == or_empty(opt_str_view(o)),
{
    match o {
        Some(s) => s,
        None => {
            proof {
                reveal_strlit("");
            }
            ""
        },
    }
}

/// Matches the network name, organisation and handle against the known providers.
pub fn classify(name: Option<&str>, org: Option<&str>, handle: Option<&str>) -> (r: Option<String>)
    ensures
        opt_string_view(r) == classify_spec(opt_str_view(name), opt_str_view(org), opt_str_view(handle)),
{
    let joined = String::from_str(or_empty_exec(name)).concat(" ").concat(or_empty_exec(org)).concat(
        " ",
    ).concat(or_empty_exec(handle));
    let haystack = to_lowercase(joined.as_str());
    let table = known_hosts_exec();
    let n = table.len();
    let mut i: usize = 0;
    while i < n
        invariant
            n == table@.len(),
            n == known_hosts().len(),
            i <= n,
            forall|k: int| 0 <= k < n ==> (#[trigger] table@[k]).0@ == known_hosts()[k].0 && table@[k].1@ == known_hosts()[k].1,
            haystack@ == classify_haystack(opt_str_view(name), opt_str_view(org), opt_str_view(handle)),
            known_host_from(haystack@, 0) == known_host_from(haystack@, i as int),
        decreases n - i,
    {
        let (needle, canonical) = table[i];
        if contains(haystack.as_str(), needle) {
            return Some(String::from_str(canonical));
        }
        i = i + 1;
    }
    None
}


/// The name property (`fn`) of the first vCard property list entry that has a
/// non-blank one, read as jCard: each property is `[name, params, type, value]`.
/// A property that is not an array ends the search with nothing found.
pub open spec fn props_fn(props: Seq<JsonView>) -> Option<Seq<char>>
    decreases props.len(),
{
    if props.len() == 0 {
        None
    } else {
        match json_as_array(props[0]) {
            None => None,
            Some(arr) => if arr.len() > 3 && json_as_str(arr[0]) == Some("fn"@) && json_as_str(
                arr[3],
            ) is Some && trim_spec(json_as_str(arr[3])->0).len() > 0 {
                Some(trim_spec(json_as_str(arr[3])->0))
            } else {
                props_fn(props.drop_first())
            },
        }
    }
}

/// The formatted name in a `vcardArray` value: `["vcard", [ properties... ]]`.
pub open spec fn vcard_fn(vcard: Option<JsonView>) -> Option<Seq<char>> {
    match vcard {
        None => None,
        Some(v) => match json_as_array(v) {
            None => None,
            Some(outer) => if outer.len() < 2 {
                None
            } else {
                match json_as_array(outer[1]) {
                    None => None,
                    Some(props) => props_fn(props),
                }
            },
        },
    }
}

fn str_is(o: Option<&str>, lit: &str) -> (r: bool)
    ensures
        r == (opt_str_view(o) == Some(lit@)),
{
    match o {
        Some(s) => crate::text::str_eq(s, lit),
        None => false,
    }
}

/// Reads the formatted name out of a `vcardArray` value.
fn fn_from_vcard(vcard: Option<&JsonValue>) -> (r: Option<String>)
    ensures
        opt_string_view(r) == vcard_fn(view_opt(vcard)),
{
    let v = match vcard {
        Some(v) => v,
        None => return None,
    };
    let outer = match v.as_array() {
        Some(a) => a,
        None => return None,
    };
    proof {
        lemma_views_of(outer@);
    }
    if outer.len() < 2 {
        return None;
    }
    let props = match outer[1].as_array() {
        Some(p) => p,
        None => return None,
    };
    let ghost ps = views_of(props@);
    proof {
        lemma_views_of(props@);
    }
    let n = props.len();
    let mut i: usize = 0;
    assert(ps.skip(0) == ps);
    while i < n
        invariant
            n == props@.len(),
            ps == views_of(props@),
            ps.len() == n,
            forall|k: int| 0 <= k < n ==> #[trigger] ps[k] == json_view(props@[k]),
            i <= n,
            vcard_fn(view_opt(vcard)) == props_fn(ps.skip(i as int)),
        decreases n - i,
    {
        let ghost rest = ps.skip(i as int);
        assert(rest[0] == ps[i as int]);
        assert(rest.drop_first() == ps.skip(i + 1));
        let arr = match props[i].as_array() {
            Some(a) => a,
            None => return None,
        };
        proof {
            lemma_views_of(arr@);
        }
        if arr.len() > 3 && str_is(arr[0].as_str(), "fn") {
            if let Some(val) = arr[3].as_str() {
                let t = trim(val);
                if t.unicode_len() > 0 {
                    return Some(t.to_owned());
                }
            }
        }
        i = i + 1;
    }
    None
}

/// The first organisation name found in `entities`, searching each entity's vCard and
/// then, depth first, the entities nested under it.
pub open spec fn entities_org(entities: Seq<JsonView>) -> Option<Seq<char>>
    decreases entities,
{
    if entities.len() == 0 {
        None
    } else {
        let e = entities[0];
        match vcard_fn(json_get(e, "vcardArray"@)) {
            Some(n) => Some(n),
            None => match json_get(e, "entities"@) {
                Some(JsonView::Array(sub)) => {
                    proof {
                        lemma_get_smaller(e, "entities"@);
                    }
                    match entities_org(sub) {
                        Some(n) => Some(n),
                        None => entities_org(entities.drop_first()),
                    }
                },
                _ => entities_org(entities.drop_first()),
            },
        }
    }
}

/// The registered organisation of the network described by `v`.
pub open spec fn org_of(v: JsonView) -> Option<Seq<char>> {
    match json_array_at(v, "entities"@) {
        Some(es) => entities_org(es),
        None => None,
    }
}

fn org_from_entities(entities: &Vec<JsonValue>) -> (r: Option<String>)
    ensures
        opt_string_view(r) == entities_org(views_of(entities@)),
    decreases views_of(entities@),
{
    let ghost es = views_of(entities@);
    proof {
        lemma_views_of(entities@);
    }
    let n = entities.len();
    let mut i: usize = 0;
    assert(es.skip(0) == es);
    while i < n
        invariant
            n == entities@.len(),
            es == views_of(entities@),
            es.len() == n,
            forall|k: int| 0 <= k < n ==> #[trigger] es[k] == json_view(entities@[k]),
            i <= n,
            entities_org(es) == entities_org(es.skip(i as int)),
        decreases n - i,
    {
        let ghost rest = es.skip(i as int);
        assert(rest[0] == es[i as int]);
        assert(rest.drop_first() == es.skip(i + 1));
        let entity = &entities[i];
        if let Some(name) = fn_from_vcard(entity.get("vcardArray")) {
            return Some(name);
        }
        if let Some(sub_value) = entity.get("entities") {
            if let Some(sub) = sub_value.as_array() {
                proof {
                    lemma_get_smaller(entity@, "entities"@);
                    let x = json_view(*sub_value);
                    assert(x == JsonView::Array(views_of(sub@)));
                    assert(decreases_to!(es => es[i as int]));
                    assert(decreases_to!(x => views_of(sub@)));
                }
                if let Some(name) = org_from_entities(sub) {
                    return Some(name);
                }
            }
        }
        i = i + 1;
    }
    None
}

fn extract_org(v: &JsonValue) -> (r: Option<String>)
    ensures
        opt_string_view(r) == org_of(v@),
{
    match v.get("entities") {
        Some(e) => match e.as_array() {
            Some(entities) => org_from_entities(entities),
            None => None,
        },
        None => None,
    }
}

/// The address block from the first `cidr0_cidrs` entry: its prefix (`v4prefix`, or
/// `v6prefix` when there is no `v4prefix` member) and its length.
pub open spec fn cidr0_block(v: JsonView) -> Option<Seq<char>> {
    match json_array_at(v, "cidr0_cidrs"@) {
        Some(cidrs) => if cidrs.len() == 0 {
            None
        } else {
            let first = cidrs[0];
            let prefix_member = match json_get(first, "v4prefix"@) {
                Some(p) => Some(p),
                None => json_get(first, "v6prefix"@),
            };
            let prefix = match prefix_member {
                Some(p) => json_as_str(p),
                None => None,
            };
            let length = match json_get(first, "length"@) {
                Some(l) => json_as_u64(l),
                None => None,
            };
            match (prefix, length) {
                (Some(p), Some(l)) => Some(p + "/"@ + decimal(l as nat)),
                _ => None,
            }
        },
        None => None,
    }
}

/// The owning block of the network described by `v`: from `cidr0_cidrs` when that
/// gives one, else from its start and end addresses.
pub open spec fn cidr_of(v: JsonView) -> Option<Seq<char>> {
    match cidr0_block(v) {
        Some(c) => Some(c),
        None => match (json_str_at(v, "startAddress"@), json_str_at(v, "endAddress"@)) {
            (Some(s), Some(e)) => Some(s + " – "@ + e),
            (Some(s), None) => Some(s),
            _ => None,
        },
    }
}

fn str_member<'a>(v: &'a JsonValue, key: &str) -> (r: Option<&'a str>)
    ensures
        opt_str_view(r) == json_str_at(v@, key@),
{
    match v.get(key) {
        Some(x) => x.as_str(),
        None => None,
    }
}

fn cidr0_block_exec(v: &JsonValue) -> (r: Option<String>)
    ensures
        opt_string_view(r) == cidr0_block(v@),
{
    let cidrs = match v.get("cidr0_cidrs") {
        Some(c) => match c.as_array() {
            Some(a) => a,
            None => return None,
        },
        None => return None,
    };
    proof {
        lemma_views_of(cidrs@);
    }
    if cidrs.len() == 0 {
        return None;
    }
    let first = &cidrs[0];
    let prefix_member = match first.get("v4prefix") {
        Some(p) => Some(p),
        None => first.get("v6prefix"),
    };
    let prefix = match prefix_member {
        Some(p) => p.as_str(),
        None => None,
    };
    let length = match first.get("length") {
        Some(l) => l.as_u64(),
        None => None,
    };
    match (prefix, length) {
        (Some(p), Some(l)) => Some(String::from_str(p).concat("/").concat(u64_to_decimal(l).as_str())),
        _ => None,
    }
}

/// Builds a readable address block from `cidr0_cidrs` or from the start and end
/// addresses.
fn extract_cidr(v: &JsonValue) -> (r: Option<String>)
    ensures
        opt_string_view(r) == cidr_of(v@),
{
    if let Some(block) = cidr0_block_exec(v) {
        return Some(block);
    }
    let start = str_member(v, "startAddress");
    let end = str_member(v, "endAddress");
    match (start, end) {
        (Some(s), Some(e)) => Some(String::from_str(s).concat(" – ").concat(e)),
        (Some(s), None) => Some(String::from_str(s)),
        _ => None,
    }
}

/// What a registry answer `v` says of the network of `ip`.
pub open spec fn rdap_info(ip: Seq<char>, v: JsonView) -> IpInfoView {
    let network_name = json_str_at(v, "name"@);
    let handle = json_str_at(v, "handle"@);
    let org = org_of(v);
    let known_host = classify_spec(network_name, org, handle);
    IpInfoView {
        ip,
        network_name,
        handle,
        org,
        cidr: cidr_of(v),
        country: json_str_at(v, "country"@),
        known_host,
        is_known_host: known_host is Some,
        source: "rdap.org"@,
    }
}

/// The message for a registry answer that is not JSON, given the parser's message.
pub open spec fn invalid_json_message(e: Seq<char>) -> Seq<char> {
    "RDAP response was not valid JSON: "@ + e
}

fn opt_as_str(o: &Option<String>) -> (r: Option<&str>)
    ensures
        opt_str_view(r) == opt_string_view(*o),
{
    match o {
        Some(s) => Some(s.as_str()),
        None => None,
    }
}

/// Reads a registry (RDAP) answer about the network of `ip`, already parsed as JSON.
pub fn read_rdap(ip: &str, doc: &JsonValue) -> (r: IpInfo)
    ensures
        r@ == rdap_info(ip@, doc@),
{
    let network_name = match str_member(doc, "name") {
        Some(s) => Some(String::from_str(s)),
        None => None,
    };
    let handle = match str_member(doc, "handle") {
        Some(s) => Some(String::from_str(s)),
        None => None,
    };
    let country = match str_member(doc, "country") {
        Some(s) => Some(String::from_str(s)),
        None => None,
    };
    let org = extract_org(doc);
    let cidr = extract_cidr(doc);
    let known_host = classify(opt_as_str(&network_name), opt_as_str(&org), opt_as_str(&handle));
    let is_known_host = known_host.is_some();
    IpInfo {
        ip: String::from_str(ip),
        network_name,
        handle,
        org,
        cidr,
        country,
        known_host,
        is_known_host,
        source: String::from_str("rdap.org"),
    }
}

/// Parses a registry (RDAP) answer `body` about the network of `ip` and reads it;
/// an answer that is not JSON gives the parser's message.
pub fn parse_rdap(ip: &str, body: &str) -> (r: Result<IpInfo, String>)
    ensures
        match json_document(body@) {
            Some(d) => r matches Ok(info) && info@ == rdap_info(ip@, d),
            None => r matches Err(m) && m@ == invalid_json_message(json_error(body@)),
        },
{
    match parse_json(body) {
        Ok(doc) => Ok(read_rdap(ip, &doc)),
        Err(e) => Err(String::from_str("RDAP response was not valid JSON: ").concat(e.as_str())),
    }
}

/// The labelled rows that the terminal view of a lookup shows, in order.
pub open spec fn info_rows_spec(i: IpInfoView) -> Seq<(Seq<char>, Seq<char>)> {
    seq![
        ("Network"@, or_dash(i.network_name)),
        ("Organisation"@, or_dash(i.org)),
        ("CIDR block"@, or_dash(i.cidr)),
        ("Country"@, or_dash(i.country)),
        ("Handle"@, or_dash(i.handle)),
    ]
}

/// The rows that the terminal view of a lookup shows: each field's label and value,
/// with a dash for a missing value.
pub fn info_rows(info: &IpInfo) -> (r: Vec<(&'static str, String)>)
    ensures
        r@.len() == 5,
        forall|k: int| 0 <= k < 5 ==> ((#[trigger] r@[k]).0@, r@[k].1@) == info_rows_spec(info@)[k],
{
    let r = vec![
        ("Network", text_or_dash(&info.network_name)),
        ("Organisation", text_or_dash(&info.org)),
        ("CIDR block", text_or_dash(&info.cidr)),
        ("Country", text_or_dash(&info.country)),
        ("Handle", text_or_dash(&info.handle)),
    ];
    r
}

/// The hosting line of a lookup's terminal view.
pub open spec fn hosting_text(known_host: Option<Seq<char>>) -> Seq<char> {
    match known_host {
        Some(p) => "Known provider: "@ + p,
        None => "Not a recognised hosting/CDN provider"@,
    }
}

/// The hosting line of a lookup's terminal view: the known provider, or that there is
/// none.
pub fn hosting_note(info: &IpInfo) -> (r: String)
    ensures
        r@ == hosting_text(info@.known_host),
{
    match &info.known_host {
        Some(p) => String::from_str("Known provider: ").concat(p.as_str()),
        None => String::from_str("Not a recognised hosting/CDN provider"),
    }
}

/// The registry (RDAP) URL that answers for the IP address `ip`.
pub open spec fn rdap_url_spec(ip: Seq<char>) -> Seq<char> {
    "https://rdap.org/ip/"@ + ip
}

/// The registry (RDAP) URL to ask about the IP address `ip`.
pub fn rdap_url(ip: &str) -> (r: String)
    ensures
        r@ == rdap_url_spec(ip@),
{
    String::from_str("https://rdap.org/ip/").concat(ip)
}


/// A provider found by the known-provider table is one of its names, and that entry's
/// fragment occurs in the text it was matched against.
pub proof fn lemma_known_host_from_table(hay: Seq<char>, i: int)
    requires
        0 <= i,
    ensures
        known_host_from(hay, i) matches Some(n) ==> exists|k: int|
            i <= k < known_hosts().len() && known_hosts()[k].1 == n && contains_seq(
                hay,
                #[trigger] known_hosts()[k].0,
            ),
    decreases known_hosts().len() - i,
{
    if i < known_hosts().len() && !contains_seq(hay, known_hosts()[i].0) {
        lemma_known_host_from_table(hay, i + 1);
    }
}

/// Earlier table entries win: when the `k`-th fragment occurs and none from the
/// `i`-th up to it does, the `k`-th provider is the one found from the `i`-th entry on
/// (from the start, when `i` is 0).
pub proof fn lemma_first_known_host_wins(hay: Seq<char>, i: int, k: int)
    requires
        0 <= i <= k < known_hosts().len(),
        contains_seq(hay, known_hosts()[k].0),
        forall|m: int| i <= m < k ==> !contains_seq(hay, #[trigger] known_hosts()[m].0),
    ensures
        known_host_from(hay, i) == Some(known_hosts()[k].1),
    decreases k - i,
{
    if i < k {
        assert(!contains_seq(hay, known_hosts()[i].0));
        lemma_first_known_host_wins(hay, i + 1, k);
    }
}

/// The `is_known_host` flag of a registry answer mirrors whether a provider was found.
pub proof fn lemma_known_flag_mirrors_host(ip: Seq<char>, v: JsonView)
    ensures
        rdap_info(ip, v).is_known_host == (rdap_info(ip, v).known_host is Some),
        rdap_info(ip, v).source == "rdap.org"@,
        rdap_info(ip, v).ip == ip,
{
}

/// A vCard whose first property is `["fn", params, type, value]` with a non-blank
/// value names that value, trimmed.
pub proof fn lemma_vcard_first_fn(
    outer: Seq<JsonView>,
    props: Seq<JsonView>,
    first: Seq<JsonView>,
    value: Seq<char>,
)
    requires
        outer.len() >= 2,
        outer[1] == JsonView::Array(props),
        props.len() > 0,
        props[0] == JsonView::Array(first),
        first.len() > 3,
        first[0] == JsonView::Str("fn"@),
        first[3] == JsonView::Str(value),
        trim_spec(value).len() > 0,
    ensures
        vcard_fn(Some(JsonView::Array(outer))) == Some(trim_spec(value)),
{
}

/// The organisation comes from the first entity's own vCard whenever that names
/// one, whatever entities are nested under that entity.
pub proof fn lemma_org_prefers_own_vcard(ip: Seq<char>, d: JsonView, es: Seq<JsonView>, name: Seq<char>)
    requires
        json_array_at(d, "entities"@) == Some(es),
        es.len() > 0,
        vcard_fn(json_get(es[0], "vcardArray"@)) == Some(name),
    ensures
        rdap_info(ip, d).org == Some(name),
{
}

/// When the first entity's own vCard names nobody, the entities nested under it are
/// searched next: a first nested entity whose vCard names someone gives the
/// organisation.
pub proof fn lemma_org_then_nested(
    ip: Seq<char>,
    d: JsonView,
    es: Seq<JsonView>,
    sub: Seq<JsonView>,
    name: Seq<char>,
)
    requires
        json_array_at(d, "entities"@) == Some(es),
        es.len() > 0,
        vcard_fn(json_get(es[0], "vcardArray"@)) is None,
        json_get(es[0], "entities"@) == Some(JsonView::Array(sub)),
        sub.len() > 0,
        vcard_fn(json_get(sub[0], "vcardArray"@)) == Some(name),
    ensures
        rdap_info(ip, d).org == Some(name),
{
    assert(entities_org(sub) == Some(name));
    assert(entities_org(es) == Some(name));
}

/// Where each field of a lookup comes from: the network name, handle and country are
/// the answer's `name`, `handle` and `country` strings, the block is read from
/// `cidr0_cidrs` before the address range, and the provider is matched on name,
/// organisation and handle.
pub proof fn lemma_rdap_fields(ip: Seq<char>, d: JsonView)
    ensures
        rdap_info(ip, d).network_name == json_str_at(d, "name"@),
        rdap_info(ip, d).handle == json_str_at(d, "handle"@),
        rdap_info(ip, d).country == json_str_at(d, "country"@),
        cidr0_block(d) is Some ==> rdap_info(ip, d).cidr == cidr0_block(d),
        cidr0_block(d) is None ==> rdap_info(ip, d).cidr == match (
            json_str_at(d, "startAddress"@),
            json_str_at(d, "endAddress"@),
        ) {
            (Some(s), Some(e)) => Some(s + " – "@ + e),
            (Some(s), None) => Some(s),
            _ => None,
        },
        rdap_info(ip, d).known_host == classify_spec(
            json_str_at(d, "name"@),
            rdap_info(ip, d).org,
            json_str_at(d, "handle"@),
        ),
{
}

} // verus!
