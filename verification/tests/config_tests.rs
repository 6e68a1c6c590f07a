use rinzler::config::{
    derive_recurse, exclude_not_found_if_force_browsing, get_hosts_from_args, hosts_hold_marker,
    pre_configure,
    thread_budget, verbosity_from_occurrences, wordlist_from_lines, Arguments, Flags,
    RinzlerSettings, ThreadWarning, Verbosity,
};

fn settings(scoped: bool, recurse: bool, hosts: Vec<&str>) -> RinzlerSettings {
    RinzlerSettings {
        user_agent: "rinzler".to_string(),
        rate_limit: 0,
        scoped,
        verbosity: Verbosity::Warn,
        quiet: false,
        hosts: hosts.into_iter().map(|h| h.to_string()).collect(),
        recurse,
        wordlist: None,
        wordlist_filename: None,
        status_include: vec![],
        status_exclude: vec![],
        flags: Flags::empty(),
        max_threads: 50,
    }
}

fn arguments() -> Arguments {
    Arguments {
        user_agent: "rinzler v0.1.0".to_string(),
        rate_limit: 0,
        scoped: true,
        deep: false,
        shallow: false,
        wordlist_filename: None,
        wordlist_lines: None,
        status_include: vec![],
        status_exclude: vec![],
        verbosity: 0,
        quiet: false,
        threads: 50,
        hosts: None,
        single_host: "https://example.com".to_string(),
    }
}

#[test]
fn thread_budget_keeps_values_in_range() {
    assert_eq!(thread_budget(1), (1, None));
    assert_eq!(thread_budget(50), (50, None));
    assert_eq!(thread_budget(1000), (1000, None));
}

#[test]
fn thread_budget_replaces_values_out_of_range() {
    assert_eq!(thread_budget(0), (50, Some(ThreadWarning::TooFew)));
    assert_eq!(thread_budget(1001), (50, Some(ThreadWarning::TooMany)));
    assert_eq!(thread_budget(usize::MAX), (50, Some(ThreadWarning::TooMany)));
}

#[test]
fn recursion_follows_the_switches() {
    assert!(derive_recurse(false, false, false));
    assert!(!derive_recurse(false, false, true));
    assert!(!derive_recurse(true, false, false));
    assert!(derive_recurse(true, true, false));
}

#[test]
fn verbosity_grows_with_the_switch() {
    assert_eq!(verbosity_from_occurrences(0), Verbosity::Warn);
    assert_eq!(verbosity_from_occurrences(1), Verbosity::Info);
    assert_eq!(verbosity_from_occurrences(2), Verbosity::Debug);
    assert_eq!(verbosity_from_occurrences(3), Verbosity::Trace);
    assert_eq!(verbosity_from_occurrences(40), Verbosity::Trace);
}

#[test]
fn wordlist_drops_comment_lines() {
    let lines = vec![
        "# a list".to_string(),
        "admin".to_string(),
        "".to_string(),
        "#login".to_string(),
        "login".to_string(),
        " #kept".to_string(),
    ];
    assert_eq!(
        wordlist_from_lines(&lines),
        vec!["admin".to_string(), "".to_string(), "login".to_string(), " #kept".to_string()]
    );
    assert_eq!(wordlist_from_lines(&vec![]), Vec::<String>::new());
}

#[test]
fn hosts_come_from_the_option_or_the_position() {
    assert_eq!(
        get_hosts_from_args(None, "https://a.example".to_string()),
        vec!["https://a.example".to_string()]
    );
    assert_eq!(
        get_hosts_from_args(
            Some(vec!["https://b.example".to_string(), "https://c.example".to_string()]),
            "https://a.example".to_string()
        ),
        vec!["https://b.example".to_string(), "https://c.example".to_string()]
    );
}

#[test]
fn flags_of_a_scoped_crawl() {
    let mut s = settings(true, true, vec!["https://example.com"]);
    pre_configure(&mut s);
    assert_eq!(s.flags.bits, Flags::SCOPED | Flags::CRAWL);
    assert!(s.flags.contains(Flags::SCOPED));
    assert!(s.flags.contains(Flags::CRAWL));
    assert!(!s.flags.contains(Flags::UNSCOPED));
    assert!(!s.flags.contains(Flags::BRUTE));
    assert!(!s.flags.contains(Flags::FUZZ));
    assert!(s.status_exclude.is_empty());
}

#[test]
fn flags_of_an_unscoped_forced_browse() {
    let mut s = settings(false, false, vec!["https://example.com"]);
    pre_configure(&mut s);
    assert_eq!(s.flags.bits, Flags::UNSCOPED | Flags::BRUTE);
    assert!(s.flags.contains(Flags::BRUTE));
    assert!(!s.flags.contains(Flags::CRAWL));
    assert!(!s.flags.contains(Flags::SCOPED));
    assert_eq!(s.status_exclude, vec![404]);
}

#[test]
fn flags_of_a_fuzzing_template() {
    let mut s = settings(true, false, vec!["https://example.com", "https://example.com/FUZZ"]);
    pre_configure(&mut s);
    assert_eq!(s.flags.bits, Flags::SCOPED | Flags::FUZZ);
    assert!(s.flags.contains(Flags::FUZZ));
    assert!(!s.flags.contains(Flags::BRUTE));
}

#[test]
fn the_marker_is_case_sensitive() {
    let mut s = settings(true, false, vec!["https://example.com/fuzz"]);
    pre_configure(&mut s);
    assert!(s.flags.contains(Flags::BRUTE));
    assert!(!s.flags.contains(Flags::FUZZ));
}

#[test]
fn default_exclusion_only_without_a_list() {
    let mut s = settings(true, false, vec!["https://example.com"]);
    s.status_exclude = vec![500];
    exclude_not_found_if_force_browsing(&mut s);
    assert_eq!(s.status_exclude, vec![500]);

    let mut crawl = settings(true, true, vec!["https://example.com"]);
    exclude_not_found_if_force_browsing(&mut crawl);
    assert!(crawl.status_exclude.is_empty());

    let mut browse = settings(true, false, vec!["https://example.com"]);
    exclude_not_found_if_force_browsing(&mut browse);
    assert_eq!(browse.status_exclude, vec![404]);
}

#[test]
fn flags_insert_keeps_what_was_set() {
    let mut flags = Flags::empty();
    assert!(flags.contains(Flags::NONE));
    flags.insert(Flags::UNSCOPED);
    flags.insert(Flags::CRAWL);
    flags.insert(Flags::BRUTE);
    assert_eq!(flags.bits, 0x62);
    assert!(flags.contains(Flags::UNSCOPED));
    assert!(flags.contains(Flags::CRAWL | Flags::BRUTE));
    assert!(!flags.contains(Flags::SCOPED));
    assert_eq!(Flags::from_bits(0x41), Flags { bits: Flags::SCOPED | Flags::CRAWL });
}

#[test]
fn settings_of_a_plain_command_line() {
    let s = RinzlerSettings::from_arguments(arguments());
    assert_eq!(s.user_agent, "rinzler v0.1.0");
    assert_eq!(s.hosts, vec!["https://example.com".to_string()]);
    assert!(s.scoped);
    assert!(s.recurse);
    assert_eq!(s.wordlist, None);
    assert_eq!(s.max_threads, 50);
    assert_eq!(s.verbosity, Verbosity::Warn);
    assert_eq!(s.flags.bits, Flags::SCOPED | Flags::CRAWL);
    assert!(s.status_exclude.is_empty());
}

#[test]
fn settings_of_a_forced_browse_command_line() {
    let mut args = arguments();
    args.wordlist_filename = Some("words.txt".to_string());
    args.wordlist_lines = Some(vec!["#top".to_string(), "admin".to_string(), "login".to_string()]);
    args.threads = 5000;
    args.verbosity = 2;
    args.scoped = false;
    let s = RinzlerSettings::from_arguments(args);
    assert!(!s.recurse);
    assert_eq!(s.wordlist, Some(vec!["admin".to_string(), "login".to_string()]));
    assert_eq!(s.wordlist_filename, Some("words.txt".to_string()));
    assert_eq!(s.max_threads, 50);
    assert_eq!(s.verbosity, Verbosity::Debug);
    assert_eq!(s.flags.bits, Flags::UNSCOPED | Flags::BRUTE);
    assert_eq!(s.status_exclude, vec![404]);
}

#[test]
fn deep_scan_with_a_wordlist_recurses() {
    let mut args = arguments();
    args.wordlist_filename = Some("words.txt".to_string());
    args.wordlist_lines = Some(vec!["admin".to_string()]);
    args.deep = true;
    args.status_exclude = vec![403];
    let s = RinzlerSettings::from_arguments(args);
    assert!(s.recurse);
    assert!(s.flags.contains(Flags::CRAWL));
    assert!(s.flags.contains(Flags::BRUTE));
    assert!(!s.flags.contains(Flags::FUZZ));
    assert_eq!(s.flags.bits, Flags::SCOPED | Flags::CRAWL | Flags::BRUTE);
    assert_eq!(s.flags.as_text(), "SCOPED | BRUTE | CRAWL");
    assert_eq!(s.status_exclude, vec![403]);
}

#[test]
fn deep_scan_of_a_template_with_a_wordlist_crawls_and_fuzzes() {
    let mut args = arguments();
    args.single_host = "https://example.com/FUZZ".to_string();
    args.wordlist_filename = Some("words.txt".to_string());
    args.wordlist_lines = Some(vec!["admin".to_string()]);
    args.deep = true;
    let s = RinzlerSettings::from_arguments(args);
    assert_eq!(s.flags.bits, Flags::SCOPED | Flags::CRAWL | Flags::FUZZ);
    assert_eq!(s.status_exclude, vec![404]);
}

#[test]
fn a_crawl_without_a_wordlist_only_crawls() {
    let mut s = settings(false, true, vec!["https://example.com/FUZZ"]);
    pre_configure(&mut s);
    assert_eq!(s.flags.bits, Flags::UNSCOPED | Flags::CRAWL);
    assert!(s.status_exclude.is_empty());
}

#[test]
fn a_crawl_with_a_wordlist_browses_too() {
    let mut s = settings(true, true, vec!["https://example.com"]);
    s.wordlist = Some(vec!["admin".to_string()]);
    pre_configure(&mut s);
    assert_eq!(s.flags.bits, Flags::SCOPED | Flags::CRAWL | Flags::BRUTE);
    assert_eq!(s.status_exclude, vec![404]);
    let mut kept = settings(true, true, vec!["https://example.com"]);
    kept.wordlist = Some(vec![]);
    kept.status_exclude = vec![500];
    exclude_not_found_if_force_browsing(&mut kept);
    assert_eq!(kept.status_exclude, vec![500]);
}

#[test]
fn a_copy_of_the_settings_holds_the_same() {
    let mut args = arguments();
    args.wordlist_filename = Some("words.txt".to_string());
    args.wordlist_lines = Some(vec!["admin".to_string()]);
    args.status_include = vec![200, 301];
    let s = RinzlerSettings::from_arguments(args);
    let copy = s.clone();
    assert_eq!(copy.user_agent, s.user_agent);
    assert_eq!(copy.hosts, s.hosts);
    assert_eq!(copy.wordlist, s.wordlist);
    assert_eq!(copy.wordlist_filename, s.wordlist_filename);
    assert_eq!(copy.status_include, s.status_include);
    assert_eq!(copy.status_exclude, s.status_exclude);
    assert_eq!(copy.flags, s.flags);
    assert_eq!(copy.max_threads, s.max_threads);
    assert_eq!(copy.recurse, s.recurse);
}

#[test]
fn the_description_of_a_crawl() {
    let s = RinzlerSettings::from_arguments(arguments());
    assert_eq!(
        s.describe(),
        "  Flags:       SCOPED | CRAWL\n  User-Agent:  rinzler v0.1.0\n  Throttle:    0ms\n  Log Level:   WARN\n  Targets:     https://example.com\n  Threads:     50\n"
    );
}

#[test]
fn the_description_of_a_forced_browse() {
    let mut args = arguments();
    args.wordlist_filename = Some("words.txt".to_string());
    args.wordlist_lines = Some(vec!["#top".to_string(), "admin".to_string(), "login".to_string()]);
    args.status_include = vec![200, 301];
    args.rate_limit = 1500;
    args.verbosity = 3;
    args.scoped = false;
    args.threads = 8;
    args.hosts = Some(vec!["https://a.example".to_string(), "https://b.example".to_string()]);
    let s = RinzlerSettings::from_arguments(args);
    assert_eq!(
        s.describe(),
        "  Flags:       UNSCOPED | BRUTE\n  Included status:  200, 301\n  Excluded status:  404\n  User-Agent:  rinzler v0.1.0\n  Throttle:    1500ms\n  Log Level:   TRACE\n  Targets:     https://a.example, https://b.example\n  Threads:     8\n  Wordlist words.txt with 2 words\n"
    );
}

#[test]
fn flags_in_words() {
    assert_eq!(Flags::empty().as_text(), "NONE");
    assert_eq!(Flags::from_bits(Flags::CRAWL).as_text(), "CRAWL");
    assert_eq!(
        Flags::from_bits(0xff).names(),
        vec!["SCOPED".to_string(), "UNSCOPED".to_string(), "FUZZ".to_string(), "BRUTE".to_string(), "CRAWL".to_string()]
    );
    assert_eq!(Flags::from_bits(Flags::SCOPED | Flags::FUZZ).as_text(), "SCOPED | FUZZ");
    assert_eq!(Flags::from_bits(0x04).as_text(), "NONE");
    assert_eq!(Verbosity::Warn.as_text(), "WARN");
    assert_eq!(Verbosity::Info.as_text(), "INFO");
    assert_eq!(Verbosity::Debug.as_text(), "DEBUG");
    assert_eq!(Verbosity::Trace.as_text(), "TRACE");
}

#[test]
fn the_marker_is_looked_for_in_every_host() {
    assert!(!hosts_hold_marker(&vec![]));
    assert!(!hosts_hold_marker(&vec!["https://example.com".to_string()]));
    assert!(hosts_hold_marker(&vec!["https://example.com".to_string(), "https://x/FUZZ/y".to_string()]));
    assert!(hosts_hold_marker(&vec!["FUZZ".to_string()]));
    assert!(!hosts_hold_marker(&vec!["FUZ".to_string(), "Z".to_string()]));
}
