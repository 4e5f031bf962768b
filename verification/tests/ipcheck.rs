use crustbrowser::ipcheck::{classify, parse_rdap, rdap_url, read_rdap};
use crustbrowser::json::JsonValue;

// Trimmed ARIN-style RDAP response for one of Google's networks.
const GOOGLE_RDAP: &str = r#"{
    "objectClassName": "ip network",
    "handle": "NET-8-8-8-0-1",
    "startAddress": "8.8.8.0",
    "endAddress": "8.8.8.255",
    "name": "GOGL",
    "country": "US",
    "cidr0_cidrs": [{ "v4prefix": "8.8.8.0", "length": 24 }],
    "entities": [{
        "objectClassName": "entity",
        "handle": "GOGL",
        "roles": ["registrant"],
        "vcardArray": ["vcard", [
            ["version", {}, "text", "4.0"],
            ["fn", {}, "text", "Google LLC"]
        ]]
    }]
}"#;

// A residential ISP block — the kind of destination a real hijack points to.
const RESIDENTIAL_RDAP: &str = r#"{
    "objectClassName": "ip network",
    "handle": "NET-203-0-113-0-1",
    "startAddress": "203.0.113.0",
    "endAddress": "203.0.113.255",
    "name": "EXAMPLE-DSL-POOL",
    "country": "RU",
    "cidr0_cidrs": [{ "v4prefix": "203.0.113.0", "length": 24 }],
    "entities": [{
        "vcardArray": ["vcard", [
            ["fn", {}, "text", "Example Regional Telecom"]
        ]]
    }]
}"#;

#[test]
fn parses_and_classifies_known_host() {
    let info = parse_rdap("8.8.8.8", GOOGLE_RDAP).unwrap();
    assert_eq!(info.network_name.as_deref(), Some("GOGL"));
    assert_eq!(info.org.as_deref(), Some("Google LLC"));
    assert_eq!(info.cidr.as_deref(), Some("8.8.8.0/24"));
    assert_eq!(info.country.as_deref(), Some("US"));
    assert_eq!(info.known_host.as_deref(), Some("Google Cloud"));
    assert!(info.is_known_host);
}

#[test]
fn unknown_host_is_not_flagged() {
    let info = parse_rdap("203.0.113.10", RESIDENTIAL_RDAP).unwrap();
    assert_eq!(info.org.as_deref(), Some("Example Regional Telecom"));
    assert_eq!(info.known_host, None);
    assert!(!info.is_known_host);
}

#[test]
fn errors_on_garbage_json() {
    assert!(parse_rdap("8.8.8.8", "<html>nope</html>").is_err());
}

#[test]
fn invalid_json_message_wraps_parser_message() {
    let m = parse_rdap("1.1.1.1", "<html>nope</html>").err().unwrap();
    let parser_message = serde_json::from_str::<serde_json::Value>("<html>nope</html>").unwrap_err().to_string();
    assert_eq!(m, format!("RDAP response was not valid JSON: {}", parser_message));
}

#[test]
fn fields_ip_and_source() {
    let info = parse_rdap("8.8.8.8", GOOGLE_RDAP).unwrap();
    assert_eq!(info.ip, "8.8.8.8");
    assert_eq!(info.source, "rdap.org");
    assert_eq!(info.handle.as_deref(), Some("NET-8-8-8-0-1"));
}

#[test]
fn cidr_falls_back_to_address_range() {
    let body = r#"{"startAddress": "10.0.0.0", "endAddress": "10.0.0.255"}"#;
    let info = parse_rdap("10.0.0.1", body).unwrap();
    assert_eq!(info.cidr.as_deref(), Some("10.0.0.0 – 10.0.0.255"));
    let body = r#"{"startAddress": "10.0.0.0"}"#;
    assert_eq!(parse_rdap("x", body).unwrap().cidr.as_deref(), Some("10.0.0.0"));
    let body = r#"{"endAddress": "10.0.0.0"}"#;
    assert_eq!(parse_rdap("x", body).unwrap().cidr, None);
    let body = r#"{"cidr0_cidrs": [{"v6prefix": "2001:db8::", "length": 32}]}"#;
    assert_eq!(parse_rdap("x", body).unwrap().cidr.as_deref(), Some("2001:db8::/32"));
    let body = r#"{"cidr0_cidrs": [{"v4prefix": "1.2.3.0"}], "startAddress": "1.2.3.0"}"#;
    assert_eq!(parse_rdap("x", body).unwrap().cidr.as_deref(), Some("1.2.3.0"));
}

#[test]
fn org_found_in_nested_entities() {
    let body = r#"{"entities": [
        {"handle": "X", "entities": [
            {"vcardArray": ["vcard", [["fn", {}, "text", "  "], ["fn", {}, "text", " Akamai Technologies "]]]}
        ]},
        {"vcardArray": ["vcard", [["fn", {}, "text", "Later Org"]]]}
    ]}"#;
    let info = parse_rdap("x", body).unwrap();
    assert_eq!(info.org.as_deref(), Some("Akamai Technologies"));
    assert_eq!(info.known_host.as_deref(), Some("Akamai"));
}

#[test]
fn non_array_vcard_property_ends_that_vcard() {
    let body = r#"{"entities": [
        {"vcardArray": ["vcard", ["oops", ["fn", {}, "text", "Hidden"]]]},
        {"vcardArray": ["vcard", [["fn", {}, "text", "Second"]]]}
    ]}"#;
    let info = parse_rdap("x", body).unwrap();
    assert_eq!(info.org.as_deref(), Some("Second"));
}

#[test]
fn classify_first_match_wins() {
    assert_eq!(classify(Some("CLOUDFLARENET"), None, None).as_deref(), Some("Cloudflare"));
    assert_eq!(classify(Some("AMAZON-02"), Some("Amazon.com, Inc."), None).as_deref(), Some("Amazon AWS"));
    // "cloudfront" is tried before "amazon".
    assert_eq!(classify(Some("AMAZON-CF"), Some("CloudFront"), None).as_deref(), Some("Amazon CloudFront"));
    assert_eq!(classify(None, None, Some("DO-13")), None);
    assert_eq!(classify(None, Some("Digital Ocean, LLC"), None).as_deref(), Some("DigitalOcean"));
}

#[test]
fn rdap_url_for_ip() {
    assert_eq!(rdap_url("1.2.3.4"), "https://rdap.org/ip/1.2.3.4");
}

#[test]
fn read_rdap_on_built_document() {
    let doc = JsonValue::Object(vec![
        ("name".to_string(), JsonValue::Str("FASTLY".to_string())),
        ("country".to_string(), JsonValue::Number(Some(7))),
        (
            "cidr0_cidrs".to_string(),
            JsonValue::Array(vec![JsonValue::Object(vec![
                ("v4prefix".to_string(), JsonValue::Str("151.101.0.0".to_string())),
                ("length".to_string(), JsonValue::Number(Some(16))),
            ])]),
        ),
    ]);
    let info = read_rdap("151.101.1.1", &doc);
    assert_eq!(info.known_host.as_deref(), Some("Fastly"));
    assert_eq!(info.country, None);
    assert_eq!(info.cidr.as_deref(), Some("151.101.0.0/16"));
}

#[test]
fn non_integer_length_gives_no_block() {
    let body = r#"{"cidr0_cidrs": [{"v4prefix": "1.2.3.0", "length": 24.5}]}"#;
    assert_eq!(parse_rdap("x", body).unwrap().cidr, None);
}

#[test]
fn terminal_rows_of_a_lookup() {
    let info = parse_rdap("8.8.8.8", GOOGLE_RDAP).unwrap();
    let rows = crustbrowser::ipcheck::info_rows(&info);
    assert_eq!(
        rows,
        vec![
            ("Network", "GOGL".to_string()),
            ("Organisation", "Google LLC".to_string()),
            ("CIDR block", "8.8.8.0/24".to_string()),
            ("Country", "US".to_string()),
            ("Handle", "NET-8-8-8-0-1".to_string()),
        ]
    );
    assert_eq!(crustbrowser::ipcheck::hosting_note(&info), "Known provider: Google Cloud");
    let bare = parse_rdap("x", "{}").unwrap();
    assert_eq!(crustbrowser::ipcheck::info_rows(&bare)[2], ("CIDR block", "—".to_string()));
    assert_eq!(crustbrowser::ipcheck::hosting_note(&bare), "Not a recognised hosting/CDN provider");
}
