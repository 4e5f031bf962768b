use crustbrowser::takeover::{
    body_indicates_takeover, check, check_response, match_service, services, verdict_service_text,
    verdict_status_text, CheckStep,
};

#[test]
fn matches_known_services() {
    assert_eq!(match_service("myrepo.github.io").unwrap().name, "GitHub Pages");
    assert_eq!(match_service("app.herokuapp.com").unwrap().name, "Heroku");
    assert!(match_service("cdn.mycompany.com").is_none());
}

#[test]
fn detects_fingerprint_in_body() {
    let gh = match_service("x.github.io").unwrap();
    assert!(body_indicates_takeover(&gh, "404: There isn't a GitHub Pages site here."));
    assert!(!body_indicates_takeover(&gh, "<html>My live blog</html>"));
}

#[test]
fn match_service_normalises_host() {
    assert_eq!(match_service("  MyRepo.GitHub.IO.. ").unwrap().name, "GitHub Pages");
    assert_eq!(match_service("bucket.s3.amazonaws.com").unwrap().name, "AWS S3");
    assert_eq!(match_service("site.azurewebsites.net").unwrap().name, "Microsoft Azure");
}

#[test]
fn first_matching_service_wins() {
    // ".s3-website" (AWS S3) comes before any later service in the table.
    let s = match_service("x.s3-website.fastly.net").unwrap();
    assert_eq!(s.name, "AWS S3");
}

#[test]
fn fingerprint_match_ignores_case() {
    let s3 = match_service("b.s3.amazonaws.com").unwrap();
    assert!(body_indicates_takeover(&s3, "<Error><Code>NOSUCHBUCKET</Code></Error>"));
    assert!(body_indicates_takeover(&s3, "the specified bucket does not exist"));
    assert!(!body_indicates_takeover(&s3, "AccessDenied"));
}

#[test]
fn service_table_has_all_entries() {
    let table = services();
    assert_eq!(table.len(), 13);
    assert_eq!(table[0].name, "GitHub Pages");
    assert_eq!(table[12].name, "Wordpress");
    assert!(table[11].nxdomain);
}

#[test]
fn check_unknown_host_is_final() {
    match check(" CDN.MyCompany.com. ") {
        CheckStep::Done(v) => {
            assert_eq!(v.target, "cdn.mycompany.com");
            assert!(!v.vulnerable);
            assert_eq!(v.service, None);
            assert_eq!(v.evidence, "Target is not a known takeover-prone service.");
        }
        CheckStep::Probe(_) => panic!("no probe expected"),
    }
}

fn probe(host: &str) -> crustbrowser::takeover::TakeoverProbe {
    match check(host) {
        CheckStep::Probe(p) => p,
        CheckStep::Done(_) => panic!("probe expected"),
    }
}

#[test]
fn check_known_host_asks_for_probe() {
    let p = probe("Blog.GitHub.io.");
    assert_eq!(p.target, "blog.github.io");
    assert_eq!(p.url, "https://blog.github.io/");
    assert_eq!(p.service.name, "GitHub Pages");
}

#[test]
fn check_response_fingerprint_is_vulnerable() {
    let p = probe("blog.github.io");
    let v = check_response(p, &Ok((404, "There isn't a GitHub Pages site here.".to_string())));
    assert!(v.vulnerable);
    assert_eq!(v.service.as_deref(), Some("GitHub Pages"));
    assert_eq!(
        v.evidence,
        "GitHub Pages returned an 'unclaimed resource' response — this host can likely be taken over."
    );
}

#[test]
fn check_response_live_site_is_not_vulnerable() {
    let p = probe("blog.github.io");
    let v = check_response(p, &Ok((200, "<html>hello</html>".to_string())));
    assert!(!v.vulnerable);
    assert_eq!(v.evidence, "GitHub Pages target appears live/claimed.");
}

#[test]
fn check_response_unreachable_depends_on_service() {
    let azure = probe("old.azurewebsites.net");
    let v = check_response(azure, &Err("dns error".to_string()));
    assert!(v.vulnerable);
    assert_eq!(
        v.evidence,
        "Microsoft Azure target does not resolve — the backing resource looks unclaimed."
    );
    let gh = probe("blog.github.io");
    let v = check_response(gh, &Err("dns error".to_string()));
    assert!(!v.vulnerable);
    assert_eq!(v.service.as_deref(), Some("GitHub Pages"));
    assert_eq!(v.evidence, "Could not reach target (dns error).");
}

#[test]
fn check_agrees_with_match_service_for_stable_hosts() {
    for host in ["MyRepo.GitHub.IO.", " shop.MyShopify.com ", "cdn.mycompany.com", "x.ghost.io"] {
        let expected = match_service(host).map(|s| s.name);
        let got = match check(host) {
            CheckStep::Done(_) => None,
            CheckStep::Probe(p) => Some(p.service.name),
        };
        assert_eq!(got, expected);
    }
}

#[test]
fn padding_keeps_fingerprint_match() {
    let gh = match_service("x.github.io").unwrap();
    let body = "There isn't a GitHub Pages site here";
    assert!(body_indicates_takeover(&gh, body));
    assert!(body_indicates_takeover(&gh, &format!("<html>{}</html>", body)));
}

#[test]
fn verdict_texts_for_display() {
    let done = match check("plain.example.org") {
        CheckStep::Done(v) => v,
        CheckStep::Probe(_) => panic!("no probe expected"),
    };
    assert_eq!(verdict_service_text(&done), "—");
    assert_eq!(verdict_status_text(&done), "Not vulnerable");
    let p = probe("old.azurewebsites.net");
    let v = check_response(p, &Err("no such host".to_string()));
    assert_eq!(verdict_service_text(&v), "Microsoft Azure");
    assert_eq!(verdict_status_text(&v), "VULNERABLE");
}
