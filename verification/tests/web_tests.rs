use rinzler::links::{
    discover_links, extract_links, is_in_scope, keep_present, resolve_links, LINK_PATTERN,
};
use rinzler::text::{begins_with, chars_of, contains_string, contains_text};
use rinzler::web::{domain_of, normalize};

#[test]
fn normalize_gives_the_serialization() {
    assert_eq!(normalize("https://example.com").ok().map(|u| u), Some("https://example.com/".to_string()));
    assert_eq!(
        normalize("HTTPS://Example.COM/a/../b?q=1").ok(),
        Some("https://example.com/b?q=1".to_string())
    );
}

#[test]
fn normalize_gives_the_reason() {
    match normalize("not a url") {
        Ok(_) => panic!("parsed"),
        Err(error) => assert_eq!(error.reason, "relative URL without a base"),
    }
    match normalize("https://") {
        Ok(_) => panic!("parsed"),
        Err(error) => assert_eq!(error.reason, "empty host"),
    }
}

#[test]
fn normalize_agrees_with_the_parser() {
    for input in ["https://example.com", "http://a.b/c d", "mailto:x@y.z", "//x", "", "ftp://h:99999/"] {
        let ours = normalize(input);
        match url::Url::parse(input) {
            Ok(parsed) => assert_eq!(ours.ok(), Some(parsed.to_string())),
            Err(error) => assert_eq!(ours.err().map(|e| e.reason), Some(error.to_string())),
        }
    }
}

#[test]
fn domain_of_an_address() {
    assert_eq!(domain_of("https://example.com/about"), "example.com");
    assert_eq!(domain_of("https://sub.example.com:8080/x"), "sub.example.com");
    assert_eq!(domain_of("https://127.0.0.1/"), "");
    assert_eq!(domain_of("mailto:rms@example.net"), "");
    assert_eq!(domain_of("not a url"), "");
}

#[test]
fn links_are_found_in_order() {
    let body = "<a href=\"/about\">a</a><img src='pic.png'><a href=\"https://other.org/x\">";
    assert_eq!(
        extract_links(body),
        vec!["/about".to_string(), "pic.png".to_string(), "https://other.org/x".to_string()]
    );
}

#[test]
fn link_text_stops_at_the_closing_characters() {
    assert_eq!(extract_links("href=\"a,b\""), vec!["a".to_string()]);
    assert_eq!(extract_links("src='x<y'"), vec!["x".to_string()]);
    assert_eq!(extract_links("href=\"\""), vec!["".to_string()]);
    assert_eq!(extract_links("no links here"), Vec::<String>::new());
    assert_eq!(extract_links("href=unquoted"), Vec::<String>::new());
}

#[test]
fn links_agree_with_the_pattern() {
    let body = "x href='//cdn.example.com/a.js' src=\"b\" href=\"c d\"";
    let pattern = regex::Regex::new(LINK_PATTERN).unwrap();
    let expected: Vec<String> = pattern
        .captures_iter(body)
        .filter_map(|c| c.get(1).map(|m| m.as_str().to_string()))
        .collect();
    assert_eq!(extract_links(body), expected);
    assert_eq!(expected.len(), 3);
}

#[test]
fn keep_present_drops_what_is_missing() {
    let items = vec![None, Some("a".to_string()), None, Some("b".to_string())];
    assert_eq!(keep_present(&items), vec!["a".to_string(), "b".to_string()]);
    assert_eq!(keep_present(&vec![None, None]), Vec::<String>::new());
}

#[test]
fn links_resolve_against_the_page() {
    let links = vec![
        "/about".to_string(),
        "c.png".to_string(),
        "//eve.com/b".to_string(),
        "http://other.org/x".to_string(),
    ];
    assert_eq!(
        resolve_links("https://example.com/a/b.html", &links),
        vec![
            "https://example.com/about".to_string(),
            "https://example.com/a/c.png".to_string(),
            "https://eve.com/b".to_string(),
            "http://other.org/x".to_string(),
        ]
    );
}

#[test]
fn links_that_do_not_resolve_are_dropped() {
    let links = vec!["https://".to_string(), "ok".to_string(), "http://[".to_string()];
    assert_eq!(
        resolve_links("https://example.com/", &links),
        vec!["https://example.com/ok".to_string()]
    );
    assert_eq!(resolve_links("not a url", &links), Vec::<String>::new());
}

#[test]
fn page_links_are_found_and_resolved() {
    let body = "<a href=\"/about\"></a> <a href=\"https://other.org/x\"></a>";
    assert_eq!(
        discover_links("https://example.com/", body),
        vec!["https://example.com/about".to_string(), "https://other.org/x".to_string()]
    );
}

#[test]
fn scope_goes_by_the_exact_domain() {
    let domains = vec!["example.com".to_string()];
    assert!(is_in_scope(true, &domains, "https://example.com/about"));
    assert!(!is_in_scope(true, &domains, "https://other.org/x"));
    assert!(!is_in_scope(true, &domains, "https://sub.example.com/"));
    assert!(!is_in_scope(true, &domains, "https://127.0.0.1/"));
    assert!(is_in_scope(false, &domains, "https://other.org/x"));
    assert!(!is_in_scope(true, &vec![], "https://example.com/"));
}

#[test]
fn substring_search() {
    assert!(contains_text("text/html; charset=utf-8", "text/"));
    assert!(contains_text("application/xhtml+text/", "text/"));
    assert!(!contains_text("application/json", "text/"));
    assert!(!contains_text("tex", "text/"));
    assert!(contains_text("anything", ""));
    assert!(contains_text("", ""));
    assert!(!contains_text("", "a"));
    assert!(contains_text("aab", "ab"));
    assert!(contains_text("héllo wörld", "wör"));
}

#[test]
fn first_character() {
    assert!(begins_with("#comment", '#'));
    assert!(!begins_with(" #comment", '#'));
    assert!(!begins_with("", '#'));
    assert_eq!(chars_of("añb"), vec!['a', 'ñ', 'b']);
}

#[test]
fn membership_of_a_string() {
    let list = vec!["a".to_string(), "b".to_string()];
    assert!(contains_string(&list, &"b".to_string()));
    assert!(!contains_string(&list, &"ab".to_string()));
    assert!(!contains_string(&vec![], &"a".to_string()));
}

#[test]
fn decimal_numerals() {
    assert_eq!(rinzler::text::to_decimal(0), "0");
    assert_eq!(rinzler::text::to_decimal(7), "7");
    assert_eq!(rinzler::text::to_decimal(10), "10");
    assert_eq!(rinzler::text::to_decimal(404), "404");
    assert_eq!(rinzler::text::to_decimal(1234567890), "1234567890");
    assert_eq!(rinzler::text::to_decimal(u64::MAX), u64::MAX.to_string());
}

#[test]
fn strings_are_joined_with_a_separator() {
    let items = vec!["a".to_string(), "".to_string(), "c".to_string()];
    assert_eq!(rinzler::text::join_strings(&items, ", "), "a, , c");
    assert_eq!(rinzler::text::join_strings(&vec!["only".to_string()], ", "), "only");
    assert_eq!(rinzler::text::join_strings(&vec![], ", "), "");
    assert_eq!(rinzler::text::join_strings(&vec!["".to_string(), "b".to_string()], "-"), "-b");
}
