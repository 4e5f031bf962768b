use crustbrowser::network::normalize_url;
use crustbrowser::render::link_label;
use crustbrowser::search::{build_search_url, search, search_engine_lines};
use crustbrowser::text::{contains, starts_with, trim, trim_end_char, u64_to_decimal};

#[test]
fn trim_removes_unicode_white_space() {
    assert_eq!(trim("  \t\n abc \u{a0}\u{3000}"), "abc");
    assert_eq!(trim(""), "");
    assert_eq!(trim(" \u{2003} "), "");
    assert_eq!(trim("a b"), "a b");
    assert_eq!(trim("\u{200b}x"), "\u{200b}x");
}

#[test]
fn trim_end_char_strips_all_trailing() {
    assert_eq!(trim_end_char("host.com...", '.'), "host.com");
    assert_eq!(trim_end_char("...", '.'), "");
    assert_eq!(trim_end_char(".a", '.'), ".a");
}

#[test]
fn substring_and_prefix() {
    assert!(contains("hello world", "lo w"));
    assert!(contains("abc", ""));
    assert!(!contains("abc", "abcd"));
    assert!(contains("ééa", "éa"));
    assert!(starts_with("https://x", "https://"));
    assert!(!starts_with("http", "https"));
}

#[test]
fn decimal_notation() {
    assert_eq!(u64_to_decimal(0), "0");
    assert_eq!(u64_to_decimal(24), "24");
    assert_eq!(u64_to_decimal(u64::MAX), "18446744073709551615");
}

#[test]
fn normalize_url_adds_scheme() {
    assert_eq!(normalize_url("example.com"), "https://example.com");
    assert_eq!(normalize_url("  http://example.com "), "http://example.com");
    assert_eq!(normalize_url("https://a.b/c"), "https://a.b/c");
    assert_eq!(normalize_url("ftp://x"), "https://ftp://x");
    assert_eq!(normalize_url(""), "https://");
}

#[test]
fn normalize_url_is_idempotent() {
    for u in ["example.com", " http://x ", "", "  ", "https://y"] {
        let once = normalize_url(u);
        assert_eq!(normalize_url(&once), once);
    }
}

#[test]
fn search_builds_google_url() {
    assert_eq!(search("rust lang"), "https://www.google.com/search?q=rust+lang");
    assert_eq!(search("a&b=c"), "https://www.google.com/search?q=a%26b%3Dc");
}

#[test]
fn build_search_url_errors_on_bad_base() {
    assert!(build_search_url("not a url", "x").is_err());
    assert_eq!(build_search_url("https://www.bing.com/search", "x").unwrap(), "https://www.bing.com/search?q=x");
}

#[test]
fn lines_for_all_engines() {
    let lines = search_engine_lines("cats");
    assert_eq!(
        lines,
        vec![
            "  Google → https://www.google.com/search?q=cats".to_string(),
            "  Bing → https://www.bing.com/search?q=cats".to_string(),
            "  DuckDuckGo → https://www.duckduckgo.com/?q=cats".to_string(),
            "  Yahoo → https://www.yahoo.com/search?q=cats".to_string(),
        ]
    );
}

#[test]
fn link_label_prefers_text() {
    assert_eq!(link_label("Home", "https://x"), "Home");
    assert_eq!(link_label("", "https://x"), "https://x");
}

#[test]
fn trim_is_idempotent() {
    for s in ["  a b  ", "\u{85}x\u{2029}", "", " \t "] {
        let once = trim(s);
        assert_eq!(trim(once), once);
    }
}

#[test]
fn search_error_line_carries_parser_message() {
    let err = build_search_url("not a url", "x").unwrap_err();
    assert_eq!(err.to_string(), "relative URL without a base");
}
