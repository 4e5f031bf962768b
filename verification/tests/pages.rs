use crustbrowser::parsar::parse_html;

const PAGE: &str = r#"<html><head><title>  My Page </title></head>
<body>
<h1> Welcome </h1><h2></h2><h3>Sub <b>part</b></h3>
<p> First paragraph. </p><p>   </p>
<ul><li>One</li><li>Two</li></ul>
<a href="https://example.com/a"> Example </a>
<a href="">Empty</a>
<a href="/url?q=https://real.example.org/page&amp;sa=U">Redirected</a>
<a href="//duckduckgo.com/l/?uddg=https%3A%2F%2Fduck.example%2Fx&amp;rut=1">Duck</a>
<a href="/url?q=notaweb&amp;sa=U">Relative</a>
<a name="anchor">No href</a>
</body></html>"#;

#[test]
fn title_headings_and_text() {
    let page = parse_html(PAGE);
    assert_eq!(page.title, "My Page");
    assert_eq!(page.headings, vec!["Welcome".to_string(), "Sub part".to_string()]);
    assert_eq!(
        page.text,
        vec!["First paragraph.".to_string(), "One".to_string(), "Two".to_string()]
    );
}

#[test]
fn links_resolve_redirects_and_skip_empty() {
    let page = parse_html(PAGE);
    assert_eq!(
        page.links,
        vec![
            ("Example".to_string(), "https://example.com/a".to_string()),
            ("Redirected".to_string(), "https://real.example.org/page".to_string()),
            ("Duck".to_string(), "https://duck.example/x".to_string()),
            ("Relative".to_string(), "/url?q=notaweb&sa=U".to_string()),
        ]
    );
}

#[test]
fn page_without_title() {
    let page = parse_html("<p>hi</p>");
    assert_eq!(page.title, "(no title)");
    assert!(page.headings.is_empty());
    assert!(page.links.is_empty());
    assert_eq!(page.text, vec!["hi".to_string()]);
}
