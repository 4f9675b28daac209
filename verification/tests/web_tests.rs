use arcee_code::tool_input::{ArgField, ArgValue, ToolInput};
use arcee_code::tools::web_fetch::{domain_of, WebFetchRequest, WebFetchTool};
use arcee_code::tools::web_search::{
    extract_ddg_url, parse_ddg_html, strip_html_tags, truncate_snippet, url_decode,
    SearchResult, WebSearchRequest, WebSearchTool,
};
use arcee_code::tools::Early;

fn input(fields: Vec<(&str, ArgValue)>) -> ToolInput {
    ToolInput {
        fields: Some(
            fields
                .into_iter()
                .map(|(k, v)| ArgField { key: k.to_string(), value: v, rendered: String::new() })
                .collect(),
        ),
        rendered: String::new(),
    }
}

#[test]
fn url_decoding() {
    assert_eq!(url_decode("a%20b%2Fc"), "a b/c");
    assert_eq!(url_decode("%zz"), "%zz");
    assert_eq!(url_decode("%+5x"), "\u{5}x");
    assert_eq!(url_decode("50%"), "50\u{0}");
    assert_eq!(url_decode("%e9"), "\u{e9}");
}

#[test]
fn html_fragments_and_snippets() {
    assert_eq!(strip_html_tags("<b>Rust</b> &amp; <i>Verus</i> &lt;3 "), "Rust & Verus <3");
    assert_eq!(truncate_snippet("a\nb", 200), "a b");
    assert_eq!(truncate_snippet("abcdef", 3), "abc…");
}

#[test]
fn ddg_links() {
    assert_eq!(
        extract_ddg_url("//duckduckgo.com/l/?uddg=https%3A%2F%2Fexample.com%2Fx&rut=abc"),
        "https://example.com/x"
    );
    assert_eq!(extract_ddg_url("//example.com/a"), "https://example.com/a");
    assert_eq!(extract_ddg_url("https://a.b"), "https://a.b");
    assert_eq!(extract_ddg_url("/rel"), "/rel");
}

#[test]
fn ddg_page_parsing() {
    let html = "<div class=\"result__body\"><a class=\"result__a\" href=\"https://a.example\">First <b>hit</b></a>\
<a class=\"result__snippet\" href=\"x\">Snip &amp; more</a></div>\
<div class=\"result__body\"><a class=\"result__a\" href=\"\">No target</a></div>\
<div class=\"result__body\"><a class=\"result__a\" href=\"https://b.example\">Second</a></div>";
    let r = parse_ddg_html(html, 10);
    assert_eq!(
        r,
        vec![
            ("First hit".to_string(), "https://a.example".to_string(), "Snip & more".to_string()),
            ("Second".to_string(), "https://b.example".to_string(), String::new()),
        ]
    );
    assert_eq!(parse_ddg_html(html, 1).len(), 1);
}

#[test]
fn search_request_and_query() {
    let i = input(vec![
        ("query", ArgValue::Str("rust".into())),
        ("allowed_domains", ArgValue::Array(vec![Some("a.com".into()), None])),
        ("blocked_domains", ArgValue::Array(vec![Some("b.com".into())])),
    ]);
    let req = WebSearchTool::request(&i).ok().unwrap();
    assert_eq!(WebSearchTool::search_query(&req), "rust site:a.com -site:b.com");
    assert_eq!(WebSearchTool::limit(&req), 10);
    match WebSearchTool::request(&input(vec![("query", ArgValue::Str("x".into()))])) {
        Err(Early::Output(o)) => assert_eq!(o.render(), "Query must be at least 2 characters long"),
        _ => panic!("expected an error output"),
    }
}

#[test]
fn search_results_shaping() {
    let req = WebSearchRequest { query: "q".into(), full: false, allowed_domains: vec![], blocked_domains: vec![] };
    let empty = WebSearchTool::shape(&req, &vec![]);
    assert_eq!(
        empty.render(),
        "0 results for \"q\"\n\n0 results. No results found for: q\n\nNext:\n - Broaden the query or remove domain filters"
    );
    let mut many = Vec::new();
    for i in 0..12 {
        many.push(SearchResult::from_fields(None, Some(format!("u{i}")), Some("s".into())));
    }
    let o = WebSearchTool::shape(&req, &many);
    let r = o.render();
    assert!(r.starts_with("10 result(s) for \"q\"\n\nresults [10]:\n  title | url | snippet\n  (no title) | u0 | s"));
    assert!(r.contains("[truncated: shown 10/12 results. pass full=true for up to 25 results]"));
    assert!(r.ends_with("Next:\n - Pass full=true for up to 25 results\n - Refine with site:<domain> or -site:<domain> to narrow further"));
}

#[test]
fn fetch_shaping() {
    assert_eq!(domain_of("https://example.com/a/b"), "example.com");
    assert_eq!(domain_of("no-scheme"), "no-scheme");
    assert_eq!(domain_of("http://a://b"), "a");
    let req = WebFetchRequest { url: "https://example.com/x".into(), full: false };
    let o = WebFetchTool::finish(&req, "text/plain", "hello");
    assert_eq!(o.render(), "example.com — 5 chars\n\nhello");
    let big = "é".repeat(30_000);
    let o = WebFetchTool::shape(&req, &big);
    let r = o.render();
    assert!(r.contains("[truncated: shown 50000/30000 chars. pass full=true to return the entire page]"));
    let full = WebFetchRequest { url: "https://example.com/x".into(), full: true };
    assert!(!WebFetchTool::shape(&full, &big).render().contains("[truncated"));
    let o = WebFetchTool::finish(&req, "text/html", "<p>Hi <b>there</b></p>");
    assert!(o.render().starts_with("example.com — "));
    assert!(o.render().contains("Hi"));
    assert_eq!(WebFetchTool::http_error("404 Not Found", "u").render(), "HTTP 404 Not Found fetching u");
}
