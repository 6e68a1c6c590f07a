use rinzler::config::{Flags, RinzlerSettings, Verbosity};
use rinzler::dispatch::{wait_for_crawlers_to_finish, Aggregator, Dispatch, RinzlerApplication};
use rinzler::message::{ConsoleMessage, ConsoleMessageType, ControllerMessage, ControllerMessageType};
use rinzler::status::{is_code_filtered, progress_tone, status_tone, Tone};
use rinzler::target::CrawlTarget;
use rinzler::client::HttpResponse;
use rinzler::visited::VisitedSet;

fn settings_for(hosts: Vec<&str>) -> RinzlerSettings {
    RinzlerSettings {
        user_agent: "rinzler".to_string(),
        rate_limit: 0,
        scoped: true,
        verbosity: Verbosity::Warn,
        quiet: false,
        hosts: hosts.into_iter().map(|h| h.to_string()).collect(),
        recurse: true,
        wordlist: None,
        wordlist_filename: None,
        status_include: vec![],
        status_exclude: vec![],
        flags: Flags::from_bits(Flags::SCOPED | Flags::CRAWL),
        max_threads: 50,
    }
}

#[test]
fn all_finished_means_completed() {
    let signals = vec![ControllerMessage::finished(), ControllerMessage::finished()];
    assert_eq!(wait_for_crawlers_to_finish(&signals), Ok("Scan Completed".to_string()));
    assert_eq!(wait_for_crawlers_to_finish(&vec![]), Ok("Scan Completed".to_string()));
}

#[test]
fn one_error_means_failed() {
    let signals = vec![
        ControllerMessage::finished(),
        ControllerMessage::error("connection refused".to_string()),
        ControllerMessage::finished(),
    ];
    assert_eq!(wait_for_crawlers_to_finish(&signals), Err("Scan Failed".to_string()));
    let first = vec![ControllerMessage::error("x".to_string()), ControllerMessage::finished()];
    assert_eq!(wait_for_crawlers_to_finish(&first), Err("Scan Failed".to_string()));
    let last = vec![ControllerMessage::finished(), ControllerMessage::error("x".to_string())];
    assert_eq!(wait_for_crawlers_to_finish(&last), Err("Scan Failed".to_string()));
}

#[test]
fn the_aggregator_waits_for_every_signal() {
    let mut aggregator = Aggregator::new(3);
    assert!(!aggregator.is_complete());
    assert_eq!(aggregator.outcome(), None);
    assert!(aggregator.record(&ControllerMessage::error("boom".to_string())));
    assert_eq!(aggregator.outcome(), None);
    assert!(aggregator.record(&ControllerMessage::finished()));
    assert!(!aggregator.is_complete());
    assert_eq!(aggregator.outcome(), None);
    assert!(aggregator.record(&ControllerMessage::finished()));
    assert!(aggregator.is_complete());
    assert_eq!(aggregator.outcome(), Some(Err("Scan Failed".to_string())));
    assert!(!aggregator.record(&ControllerMessage::finished()));
    assert_eq!(aggregator.outcome(), Some(Err("Scan Failed".to_string())));
}

#[test]
fn the_aggregator_completes_without_errors() {
    let mut aggregator = Aggregator::new(2);
    aggregator.record(&ControllerMessage::finished());
    aggregator.record(&ControllerMessage::finished());
    assert_eq!(aggregator.outcome(), Some(Ok("Scan Completed".to_string())));
    let none = Aggregator::new(0);
    assert!(none.is_complete());
    assert_eq!(none.outcome(), Some(Ok("Scan Completed".to_string())));
}

#[test]
fn the_run_ends_with_its_outcome() {
    let good = RinzlerApplication::conclude(&vec![ControllerMessage::finished()]);
    assert_eq!(good.message_type, ConsoleMessageType::Finish);
    assert_eq!(good.data, Ok("Scan Completed".to_string()));
    assert!(good.crawl_target.is_none());
    let bad = RinzlerApplication::conclude(&vec![ControllerMessage::error("x".to_string())]);
    assert_eq!(bad.message_type, ConsoleMessageType::Finish);
    assert_eq!(bad.data, Err("Scan Failed".to_string()));
}

#[test]
fn scoped_domains_come_from_the_seeds() {
    let application = RinzlerApplication::from_settings(settings_for(vec![
        "https://example.com",
        "https://127.0.0.1/x",
        "http://sub.example.org:8080/path",
    ]));
    assert_eq!(application.dispatch().outcome(), None);
    match application.dispatch() {
        Dispatch::Run { scoped_domains } => {
            assert_eq!(scoped_domains, vec!["example.com".to_string(), "sub.example.org".to_string()]);
        }
        Dispatch::Abort { .. } => panic!("the run was aborted"),
    }
}

#[test]
fn the_first_bad_seed_aborts() {
    let application = RinzlerApplication::from_settings(settings_for(vec![
        "https://example.com",
        "https://",
        "not a url",
    ]));
    match application.dispatch() {
        Dispatch::Abort { message } => {
            assert_eq!(message.data, Err("Couldn't parse 'https://' as a URL: empty host".to_string()));
        }
        Dispatch::Run { .. } => panic!("the run was not aborted"),
    }
}

#[test]
fn controller_messages() {
    let done = ControllerMessage::finished();
    assert_eq!(done.message_type, ControllerMessageType::FINISHED);
    assert_eq!(done.data, "");
    let failed = ControllerMessage::error("why".to_string());
    assert_eq!(failed.message_type, ControllerMessageType::ERROR);
    assert_eq!(failed.data, "why");
}

#[test]
fn a_copy_of_a_message_loses_its_kind() {
    let target = CrawlTarget::observed(5, "https://example.com/".to_string(), 9);
    let message = ConsoleMessage::force_browse_start(12, &target);
    assert_eq!(message.total, Some(12));
    let copy = message.clone();
    assert_eq!(copy.message_type, ConsoleMessageType::NONE);
    assert_eq!(copy.total, Some(12));
    assert_eq!(copy.crawl_target.as_ref().unwrap().id, 5);
    let same = message.duplicate();
    assert_eq!(same.message_type, ConsoleMessageType::ForceBrowseStart);
    assert_eq!(same.data, Ok(String::new()));
}

#[test]
fn target_records() {
    let first = CrawlTarget::new();
    let second = CrawlTarget::new();
    assert!(first != second);
    assert!(first.id != second.id);
    assert_eq!((first.id >> 76) & 0xf, 4);
    assert_eq!((first.id >> 62) & 0x3, 2);
    assert_eq!(first.url, "");
    assert_eq!(first.status_code, None);
    assert!(first.timestamp > 1_600_000_000_000);
    assert!(first.clone() == first);

    let mut renamed = first.clone();
    renamed.url = "https://example.com/".to_string();
    assert!(renamed == first);

    let response = HttpResponse {
        status: 204,
        url: "https://example.com/x".to_string(),
        content_type: String::new(),
    };
    let fresh = CrawlTarget::from_response(&response);
    assert_eq!(fresh.status_code, Some(204));
    assert_eq!(fresh.url, "https://example.com/x");
    assert!(fresh != first);

    let mut seen = CrawlTarget::from_url("https://example.com/".to_string());
    let id = seen.id;
    seen.record_response(&response, rinzler::client::Method::Get, 42);
    assert_eq!(seen.id, id);
    assert_eq!(seen.url, "https://example.com/x");
    assert_eq!(seen.status_code, Some(204));
    assert_eq!(seen.method, "GET");
    assert_eq!(seen.timestamp, 42);
}

#[test]
fn the_visited_set_grants_an_address_once() {
    let mut visited = VisitedSet::new();
    let url = "https://example.com/".to_string();
    assert!(!visited.contains(&url));
    assert!(visited.insert(&url));
    assert!(visited.contains(&url));
    assert!(!visited.insert(&url));
    assert!(visited.insert(&"https://example.com/a".to_string()));
    assert!(!visited.insert(&url));
    assert!(!visited.contains(&"https://example.com".to_string()));
}

#[test]
fn not_found_is_suppressed_by_default() {
    let mut s = settings_for(vec!["https://example.com"]);
    s.recurse = false;
    rinzler::config::pre_configure(&mut s);
    assert!(!is_code_filtered(404, &s));
    assert!(is_code_filtered(200, &s));
    assert!(is_code_filtered(500, &s));
    let crawl = settings_for(vec!["https://example.com"]);
    assert!(is_code_filtered(404, &crawl));
}

#[test]
fn tones_of_status_codes() {
    assert_eq!(status_tone(0), Tone::BrightWhite);
    assert_eq!(status_tone(199), Tone::BrightWhite);
    assert_eq!(status_tone(200), Tone::Green);
    assert_eq!(status_tone(299), Tone::Green);
    assert_eq!(status_tone(300), Tone::BrightYellow);
    assert_eq!(status_tone(399), Tone::BrightYellow);
    assert_eq!(status_tone(400), Tone::Yellow);
    assert_eq!(status_tone(499), Tone::Yellow);
    assert_eq!(status_tone(500), Tone::Red);
    assert_eq!(status_tone(u16::MAX), Tone::Red);
    assert_eq!(progress_tone(200), Tone::Cyan);
    assert_eq!(progress_tone(298), Tone::Cyan);
    assert_eq!(progress_tone(299), Tone::White);
    assert_eq!(progress_tone(300), Tone::Yellow);
    assert_eq!(progress_tone(398), Tone::Yellow);
    assert_eq!(progress_tone(399), Tone::White);
    assert_eq!(progress_tone(400), Tone::White);
    assert_eq!(progress_tone(401), Tone::Red);
}

#[test]
fn the_status_of_a_record_in_words() {
    assert_eq!(rinzler::status::status_text(None), "???");
    assert_eq!(rinzler::status::status_text(Some(200)), "200");
    assert_eq!(rinzler::status::status_text(Some(0)), "0");
    assert_eq!(rinzler::status::status_text(Some(u16::MAX)), "65535");
}
