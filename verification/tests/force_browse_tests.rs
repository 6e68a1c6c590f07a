use rinzler::client::{range_header, HttpResponse, Method, RequestOptions};
use rinzler::config::{Flags, RinzlerSettings, Verbosity};
use rinzler::force_browse::{after_probe_head, begin_probe, finish_probe, settle_probe, HeadVerdict};
use rinzler::message::{ConsoleMessage, ConsoleMessageType};
use rinzler::target::CrawlTarget;
use rinzler::visited::VisitedSet;

fn browse_settings(status_include: Vec<u16>, status_exclude: Vec<u16>) -> RinzlerSettings {
    RinzlerSettings {
        user_agent: "rinzler".to_string(),
        rate_limit: 0,
        scoped: true,
        verbosity: Verbosity::Warn,
        quiet: false,
        hosts: vec!["https://example.com".to_string()],
        recurse: false,
        wordlist: Some(vec!["admin".to_string(), "login".to_string()]),
        wordlist_filename: Some("words.txt".to_string()),
        status_include,
        status_exclude,
        flags: Flags::from_bits(Flags::SCOPED | Flags::BRUTE),
        max_threads: 50,
    }
}

fn answer(status: u16, url: &str) -> Option<HttpResponse> {
    Some(HttpResponse { status, url: url.to_string(), content_type: "text/html".to_string() })
}

fn kinds(messages: &Vec<ConsoleMessage>) -> Vec<ConsoleMessageType> {
    messages.iter().map(|m| m.message_type).collect()
}

#[test]
fn two_words_give_two_attempts_one_hit_and_two_progress_reports() {
    let settings = browse_settings(vec![], vec![404]);
    let base = CrawlTarget::from_url("https://example.com/".to_string());
    let mut visited = VisitedSet::new();
    let mut all: Vec<ConsoleMessage> = vec![];
    let words = settings.wordlist.clone().unwrap();
    let statuses = [200u16, 404u16];
    for (word, status) in words.iter().zip(statuses.iter()) {
        let probe = begin_probe(&base, word).unwrap();
        assert_eq!(probe.candidate.url, format!("https://example.com/{}", word));
        assert_eq!(probe.candidate.status_code, None);
        assert_eq!(probe.announcement.original_target.as_ref().unwrap().id, base.id);
        assert_eq!(probe.announcement.crawl_target.as_ref().unwrap().id, probe.candidate.id);
        let url = probe.candidate.url.clone();
        all.push(probe.announcement);
        let settled = match after_probe_head(answer(*status, &url)) {
            HeadVerdict::Settled { response } => response,
            HeadVerdict::RetryWithGet => panic!("no retry was due"),
        };
        all.extend(finish_probe(&settings, &base, &probe.candidate, settled, Method::Head, &mut visited));
    }
    assert_eq!(
        kinds(&all),
        vec![
            ConsoleMessageType::ForceBrowseAttempt,
            ConsoleMessageType::ForceBrowseHit,
            ConsoleMessageType::ForceBrowseProgress,
            ConsoleMessageType::ForceBrowseAttempt,
            ConsoleMessageType::ForceBrowseProgress,
        ]
    );
    let hit = all[1].crawl_target.as_ref().unwrap();
    assert_eq!(hit.id, base.id);
    assert_eq!(hit.url, "https://example.com/admin");
    assert_eq!(hit.status_code, Some(200));
    assert_eq!(hit.method, "HEAD");
    assert_eq!(all[2].crawl_target.as_ref().unwrap().id, base.id);
    assert!(visited.contains(&"https://example.com/admin".to_string()));
    assert!(!visited.contains(&"https://example.com/login".to_string()));
}

#[test]
fn a_word_that_does_not_resolve_is_skipped() {
    let base = CrawlTarget::from_url("https://example.com/".to_string());
    assert!(begin_probe(&base, "https://").is_none());
    assert!(begin_probe(&base, "http://[").is_none());
    let nowhere = CrawlTarget::from_url("not a url".to_string());
    assert!(begin_probe(&nowhere, "admin").is_none());
}

#[test]
fn a_word_resolves_like_a_link() {
    let base = CrawlTarget::from_url("https://example.com/a/b".to_string());
    assert_eq!(begin_probe(&base, "admin").unwrap().candidate.url, "https://example.com/a/admin");
    assert_eq!(begin_probe(&base, "/admin").unwrap().candidate.url, "https://example.com/admin");
    assert_eq!(begin_probe(&base, "").unwrap().candidate.url, "https://example.com/a/b");
}

#[test]
fn a_server_error_on_head_asks_for_a_get() {
    assert!(matches!(after_probe_head(answer(500, "https://example.com/x")), HeadVerdict::RetryWithGet));
    assert!(matches!(after_probe_head(answer(503, "https://example.com/x")), HeadVerdict::RetryWithGet));
    assert!(matches!(after_probe_head(answer(599, "https://example.com/x")), HeadVerdict::RetryWithGet));
    match after_probe_head(answer(499, "https://example.com/x")) {
        HeadVerdict::Settled { response } => assert_eq!(response.unwrap().status, 499),
        HeadVerdict::RetryWithGet => panic!("no retry was due"),
    }
    match after_probe_head(answer(600, "https://example.com/x")) {
        HeadVerdict::Settled { response } => assert_eq!(response.unwrap().status, 600),
        HeadVerdict::RetryWithGet => panic!("no retry was due"),
    }
    match after_probe_head(None) {
        HeadVerdict::Settled { response } => assert!(response.is_none()),
        HeadVerdict::RetryWithGet => panic!("no retry was due"),
    }
}

#[test]
fn a_failed_probe_reports_progress_only() {
    let settings = browse_settings(vec![], vec![]);
    let base = CrawlTarget::from_url("https://example.com/".to_string());
    let candidate = CrawlTarget::from_url("https://example.com/admin".to_string());
    let mut visited = VisitedSet::new();
    let said = settle_probe(&settings, &base, &candidate, None, Method::Get, 5, &mut visited);
    assert_eq!(kinds(&said), vec![ConsoleMessageType::ForceBrowseProgress]);
    assert!(!visited.contains(&candidate.url));
}

#[test]
fn a_hit_carries_the_record_of_the_response() {
    let settings = browse_settings(vec![200, 301], vec![]);
    let base = CrawlTarget::observed(11, "https://example.com/".to_string(), 1);
    let candidate = CrawlTarget::observed(12, "https://example.com/admin".to_string(), 2);
    let mut visited = VisitedSet::new();
    let said = settle_probe(
        &settings,
        &base,
        &candidate,
        answer(301, "https://example.com/admin/"),
        Method::Get,
        77,
        &mut visited,
    );
    assert_eq!(kinds(&said), vec![ConsoleMessageType::ForceBrowseHit, ConsoleMessageType::ForceBrowseProgress]);
    let hit = said[0].crawl_target.as_ref().unwrap();
    assert_eq!(hit.id, 11);
    assert_eq!(hit.url, "https://example.com/admin/");
    assert_eq!(hit.status_code, Some(301));
    assert_eq!(hit.method, "GET");
    assert_eq!(hit.timestamp, 77);
    assert!(visited.contains(&"https://example.com/admin".to_string()));
    assert!(!visited.contains(&"https://example.com/admin/".to_string()));

    let missed = settle_probe(
        &settings,
        &base,
        &candidate,
        answer(500, "https://example.com/admin"),
        Method::Get,
        78,
        &mut visited,
    );
    assert_eq!(kinds(&missed), vec![ConsoleMessageType::ForceBrowseProgress]);
}

#[test]
fn request_options() {
    assert_eq!(RequestOptions::default(), Some(RequestOptions { truncate: false }));
    assert_eq!(RequestOptions::with_partial_get(), Some(RequestOptions { truncate: true }));
    assert_eq!(range_header(RequestOptions::with_partial_get()), Some("-100".to_string()));
    assert_eq!(range_header(RequestOptions::default()), None);
    assert_eq!(range_header(None), None);
    assert_eq!(Method::Head.as_text(), "HEAD");
    assert_eq!(Method::Get.as_text(), "GET");
    assert_eq!(Method::Options.as_text(), "OPTIONS");
}

#[test]
fn requests_are_shaped_by_the_library() {
    let head = rinzler::client::Request::head("https://example.com/".to_string());
    assert_eq!(head.method, Method::Head);
    assert_eq!(head.url, "https://example.com/");
    assert_eq!(head.options, Some(RequestOptions { truncate: false }));
    assert_eq!(head.range(), None);
    let get = rinzler::client::Request::truncated_get("https://example.com/".to_string());
    assert_eq!(get.method, Method::Get);
    assert_eq!(get.options, Some(RequestOptions { truncate: true }));
    assert_eq!(get.range(), Some("-100".to_string()));
}

#[test]
fn a_probe_retries_after_a_server_error() {
    let settings = browse_settings(vec![], vec![404]);
    let base = CrawlTarget::from_url("https://example.com/".to_string());
    let mut visited = VisitedSet::new();
    let probe = begin_probe(&base, "admin").unwrap();
    let first = probe.request();
    assert_eq!(first.method, Method::Head);
    assert_eq!(first.url, "https://example.com/admin");
    assert_eq!(first.options, Some(RequestOptions { truncate: false }));
    let request = match probe.on_head(&settings, &base, answer(502, "https://example.com/admin"), &mut visited) {
        rinzler::force_browse::ProbeStep::Retry { request } => request,
        rinzler::force_browse::ProbeStep::Done { .. } => panic!("the probe ended on a server error"),
    };
    assert_eq!(request.method, Method::Get);
    assert_eq!(request.url, "https://example.com/admin");
    assert_eq!(request.options, Some(RequestOptions { truncate: true }));
    assert!(!visited.contains(&"https://example.com/admin".to_string()));
    let said = probe.on_get(&settings, &base, answer(200, "https://example.com/admin"), &mut visited);
    assert_eq!(kinds(&said), vec![ConsoleMessageType::ForceBrowseHit, ConsoleMessageType::ForceBrowseProgress]);
    assert_eq!(said[0].crawl_target.as_ref().unwrap().method, "GET");
    assert!(visited.contains(&"https://example.com/admin".to_string()));
}

#[test]
fn a_probe_ends_on_any_other_answer() {
    let settings = browse_settings(vec![], vec![404]);
    let base = CrawlTarget::from_url("https://example.com/".to_string());
    let mut visited = VisitedSet::new();
    let probe = begin_probe(&base, "login").unwrap();
    match probe.on_head(&settings, &base, answer(404, "https://example.com/login"), &mut visited) {
        rinzler::force_browse::ProbeStep::Done { messages } => {
            assert_eq!(kinds(&messages), vec![ConsoleMessageType::ForceBrowseProgress]);
        }
        rinzler::force_browse::ProbeStep::Retry { .. } => panic!("a retry was asked for"),
    }
    match probe.on_head(&settings, &base, None, &mut visited) {
        rinzler::force_browse::ProbeStep::Done { messages } => {
            assert_eq!(kinds(&messages), vec![ConsoleMessageType::ForceBrowseProgress]);
        }
        rinzler::force_browse::ProbeStep::Retry { .. } => panic!("a retry was asked for"),
    }
    let lost = probe.on_get(&settings, &base, None, &mut visited);
    assert_eq!(kinds(&lost), vec![ConsoleMessageType::ForceBrowseProgress]);
    assert!(!visited.contains(&"https://example.com/login".to_string()));
}
