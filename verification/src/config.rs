//! The scan configuration: what the command line asked for, and the mode
//! flags derived from it.

use crate::text::{
    begins_with, clone_strings, contains_text, decimal, has_substring, join_strings, joined,
    to_decimal,
};
use vstd::prelude::*;
use vstd::string::*;

verus! {

/// How much the program reports about its own work.
#[derive(Clone, Copy, Debug, PartialEq, Eq, Structural)]
pub enum Verbosity {
    Warn,
    Info,
    Debug,
    Trace,
}

impl Verbosity {
    /// The name of the level.
    pub open spec fn name(self) -> Seq<char> {
        match self {
            Verbosity::Warn => "WARN"@,
            Verbosity::Info => "INFO"@,
            Verbosity::Debug => "DEBUG"@,
            Verbosity::Trace => "TRACE"@,
        }
    }

    /// The name of the level.
    pub fn as_text(&self) -> (text: String)
        ensures
            text@ == self.name(),
    {
        match self {
            Verbosity::Warn => String::from_str("WARN"),
            Verbosity::Info => String::from_str("INFO"),
            Verbosity::Debug => String::from_str("DEBUG"),
            Verbosity::Trace => String::from_str("TRACE"),
        }
    }
}

/// The modes a flag set stands for, one boolean per mode.
pub struct Modes {
    pub scoped: bool,
    pub unscoped: bool,
    pub fuzz: bool,
    pub brute: bool,
    pub crawl: bool,
}

/// A set of scan modes, one bit per mode.
#[derive(Clone, Copy, Debug, PartialEq, Eq, Structural)]
pub struct Flags {
    pub bits: u8,
}

impl View for Flags {
    type V = Modes;

    open spec fn view(&self) -> Modes {
        Modes {
            scoped: self.bits & 0x01 == 0x01,
            unscoped: self.bits & 0x02 == 0x02,
            fuzz: self.bits & 0x10 == 0x10,
            brute: self.bits & 0x20 == 0x20,
            crawl: self.bits & 0x40 == 0x40,
        }
    }
}

impl Flags {
    pub const NONE: u8 = 0x00;

    /// Discovery stays within the domains of the seed hosts.
    pub const SCOPED: u8 = 0x01;

    /// Discovery may leave the domains of the seed hosts.
    pub const UNSCOPED: u8 = 0x02;

    /// Forced browsing of a seed that holds the substitution marker.
    pub const FUZZ: u8 = 0x10;

    /// A wordlist drives forced browsing.
    pub const BRUTE: u8 = 0x20;

    /// Recursive discovery is active.
    pub const CRAWL: u8 = 0x40;

    /// Every bit of `mask` is set in `self`.
    pub open spec fn has(self, mask: u8) -> bool {
        self.bits & mask == mask
    }

    /// The flag set with exactly the bits of `bits`.
    pub fn from_bits(bits: u8) -> (flags: Flags)
        ensures
            flags.bits == bits,
    {
        Flags { bits }
    }

    /// The flag set with no mode in it.
    pub fn empty() -> (flags: Flags)
        ensures
            flags.bits == 0,
            flags@ == (Modes {
                scoped: false,
                unscoped: false,
                fuzz: false,
                brute: false,
                crawl: false,
            }),
    {
        assert(0u8 & 0x01 != 0x01 && 0u8 & 0x02 != 0x02 && 0u8 & 0x10 != 0x10 && 0u8 & 0x20
            != 0x20 && 0u8 & 0x40 != 0x40) by (bit_vector);
        Flags { bits: 0 }
    }

    /// Whether every bit of `mask` is set.
    pub fn contains(&self, mask: u8) -> (yes: bool)
        ensures
            yes == self.has(mask),
    {
        self.bits & mask == mask
    }

    /// Sets the bits of `mask`, leaving the others as they were.
    pub fn insert(&mut self, mask: u8)
        ensures
            final(self).bits == old(self).bits | mask,
            final(self).has(mask),
            forall|other: u8| old(self).has(other) ==> final(self).has(other),
    {
        let before: u8 = self.bits;
        self.bits = before | mask;
        assert((before | mask) & mask == mask) by (bit_vector);
        assert forall|other: u8| before & other == other implies (before | mask) & other
            == other by {
            assert(before & other == other ==> (before | mask) & other == other)
                by (bit_vector);
        }
    }
}

/// The meaning of the five mode masks, each alone and over a whole flag set.
pub proof fn lemma_mode_masks(flags: Flags)
    ensures
        flags.has(Flags::SCOPED) == flags@.scoped,
        flags.has(Flags::UNSCOPED) == flags@.unscoped,
        flags.has(Flags::FUZZ) == flags@.fuzz,
        flags.has(Flags::BRUTE) == flags@.brute,
        flags.has(Flags::CRAWL) == flags@.crawl,
        flags.has(Flags::NONE),
{
    let b = flags.bits;
    assert(b & 0u8 == 0u8) by (bit_vector);
}

/// A list of names with one more name at its end, where the mode is set.
pub open spec fn with_name(list: Seq<Seq<char>>, set: bool, name: Seq<char>) -> Seq<Seq<char>> {
    if set {
        list.push(name)
    } else {
        list
    }
}

/// The names of the modes that are set, in the order scope, fuzz, brute, crawl.
pub open spec fn mode_names(modes: Modes) -> Seq<Seq<char>> {
    with_name(
        with_name(
            with_name(
                with_name(
                    with_name(Seq::empty(), modes.scoped, "SCOPED"@),
                    modes.unscoped,
                    "UNSCOPED"@,
                ),
                modes.fuzz,
                "FUZZ"@,
            ),
            modes.brute,
            "BRUTE"@,
        ),
        modes.crawl,
        "CRAWL"@,
    )
}

/// A flag set in words: the names of its modes with a bar between each two,
/// or `NONE` where no mode is set.
pub open spec fn modes_text(modes: Modes) -> Seq<char> {
    if mode_names(modes).len() == 0 {
        "NONE"@
    } else {
        joined(mode_names(modes), " | "@)
    }
}

/// Puts `name` at the end of `list` where the mode is set.
fn add_name(list: &mut Vec<String>, set: bool, name: &str)
    ensures
        final(list).deep_view() == with_name(old(list).deep_view(), set, name@),
{
    if set {
        let ghost before = list.deep_view();
        list.push(String::from_str(name));
        assert(list.deep_view() =~= before.push(name@));
    }
}

impl Flags {
    /// The names of the modes that are set.
    pub fn names(&self) -> (list: Vec<String>)
        ensures
            list.deep_view() == mode_names(self@),
    {
        let mut list: Vec<String> = Vec::new();
        assert(list.deep_view() =~= Seq::<Seq<char>>::empty());
        add_name(&mut list, self.contains(Flags::SCOPED), "SCOPED");
        add_name(&mut list, self.contains(Flags::UNSCOPED), "UNSCOPED");
        add_name(&mut list, self.contains(Flags::FUZZ), "FUZZ");
        add_name(&mut list, self.contains(Flags::BRUTE), "BRUTE");
        add_name(&mut list, self.contains(Flags::CRAWL), "CRAWL");
        list
    }

    /// The flag set in words.
    pub fn as_text(&self) -> (text: String)
        ensures
            text@ == modes_text(self@),
    {
        let list = self.names();
        if list.len() == 0 {
            String::from_str("NONE")
        } else {
            join_strings(&list, " | ")
        }
    }
}

/// The scan configuration. Nothing changes it once a run has started.
pub struct RinzlerSettings {
    pub user_agent: String,
    pub rate_limit: u64,
    pub scoped: bool,
    pub verbosity: Verbosity,
    pub quiet: bool,
    pub hosts: Vec<String>,
    pub recurse: bool,
    pub wordlist: Option<Vec<String>>,
    pub wordlist_filename: Option<String>,
    pub status_include: Vec<u16>,
    pub status_exclude: Vec<u16>,
    pub flags: Flags,
    pub max_threads: usize,
}

/// A configuration as plain mathematical values.
pub struct SettingsView {
    pub user_agent: Seq<char>,
    pub rate_limit: u64,
    pub scoped: bool,
    pub verbosity: Verbosity,
    pub quiet: bool,
    pub hosts: Seq<Seq<char>>,
    pub recurse: bool,
    pub wordlist: Option<Seq<Seq<char>>>,
    pub wordlist_filename: Option<Seq<char>>,
    pub status_include: Seq<u16>,
    pub status_exclude: Seq<u16>,
    pub flags: Flags,
    pub max_threads: usize,
}

impl View for RinzlerSettings {
    type V = SettingsView;

    open spec fn view(&self) -> SettingsView {
        SettingsView {
            user_agent: self.user_agent@,
            rate_limit: self.rate_limit,
            scoped: self.scoped,
            verbosity: self.verbosity,
            quiet: self.quiet,
            hosts: self.hosts.deep_view(),
            recurse: self.recurse,
            wordlist: match self.wordlist {
                Some(words) => Some(words.deep_view()),
                None => None,
            },
            wordlist_filename: match self.wordlist_filename {
                Some(name) => Some(name@),
                None => None,
            },
            status_include: self.status_include@,
            status_exclude: self.status_exclude@,
            flags: self.flags,
            max_threads: self.max_threads,
        }
    }
}

impl Clone for RinzlerSettings {
    fn clone(&self) -> (copy: Self)
        ensures
            copy@ == self@,
    {
        RinzlerSettings {
            user_agent: self.user_agent.clone(),
            rate_limit: self.rate_limit,
            scoped: self.scoped,
            verbosity: self.verbosity,
            quiet: self.quiet,
            hosts: clone_strings(&self.hosts),
            recurse: self.recurse,
            wordlist: match &self.wordlist {
                Some(words) => Some(clone_strings(words)),
                None => None,
            },
            wordlist_filename: match &self.wordlist_filename {
                Some(name) => Some(name.clone()),
                None => None,
            },
            status_include: self.status_include.clone(),
            status_exclude: self.status_exclude.clone(),
            flags: self.flags,
            max_threads: self.max_threads,
        }
    }
}

/// The marker that makes a seed a fuzzing template.
pub open spec fn fuzz_marker() -> Seq<char> {
    "FUZZ"@
}

/// Some host holds the fuzzing marker.
pub open spec fn any_host_is_template(hosts: Seq<Seq<char>>) -> bool {
    exists|i: int| 0 <= i < hosts.len() && has_substring(#[trigger] hosts[i], fuzz_marker())
}

/// Forced browsing is part of a run that does not recurse, and of every run
/// that was given a wordlist.
pub open spec fn forcing(recurse: bool, wordlist_given: bool) -> bool {
    !recurse || wordlist_given
}

/// The mode bits that follow from the scope and recursion switches, from the
/// wordlist and from the seed hosts. One scope bit is set. The crawl bit is
/// set exactly when the run recurses. Where forced browsing is part of the
/// run, the fuzz bit is set if a seed holds the marker and the brute bit
/// otherwise; so a recursing run with a wordlist crawls and browses.
pub open spec fn derived_bits(
    scoped: bool,
    recurse: bool,
    wordlist_given: bool,
    hosts: Seq<Seq<char>>,
) -> u8 {
    let scope = if scoped {
        Flags::SCOPED
    } else {
        Flags::UNSCOPED
    };
    let crawl = if recurse {
        Flags::CRAWL
    } else {
        Flags::NONE
    };
    let browse = if !forcing(recurse, wordlist_given) {
        Flags::NONE
    } else if any_host_is_template(hosts) {
        Flags::FUZZ
    } else {
        Flags::BRUTE
    };
    scope | crawl | browse
}

/// The modes that the derived bits stand for: the scope bits mirror the scope
/// switch; the crawl mode is on exactly when the run recurses; and where
/// forced browsing is part of the run, exactly one of fuzz and brute is on,
/// beside the crawl mode where the run recurses too.
pub proof fn lemma_derived_modes(
    scoped: bool,
    recurse: bool,
    wordlist_given: bool,
    hosts: Seq<Seq<char>>,
)
    ensures
        (Flags { bits: derived_bits(scoped, recurse, wordlist_given, hosts) })@ == (Modes {
            scoped: scoped,
            unscoped: !scoped,
            fuzz: forcing(recurse, wordlist_given) && any_host_is_template(hosts),
            brute: forcing(recurse, wordlist_given) && !any_host_is_template(hosts),
            crawl: recurse,
        }),
        recurse && wordlist_given ==> {
            let modes = (Flags { bits: derived_bits(scoped, recurse, wordlist_given, hosts) })@;
            modes.crawl && (modes.brute || modes.fuzz)
        },
{
    let scope: u8 = if scoped {
        Flags::SCOPED
    } else {
        Flags::UNSCOPED
    };
    let crawl: u8 = if recurse {
        Flags::CRAWL
    } else {
        Flags::NONE
    };
    let browse: u8 = if !forcing(recurse, wordlist_given) {
        Flags::NONE
    } else if any_host_is_template(hosts) {
        Flags::FUZZ
    } else {
        Flags::BRUTE
    };
    let bits: u8 = scope | crawl | browse;
    assert(bits & 0x01 == 0x01 <==> scope == 0x01) by (bit_vector)
        requires
            bits == scope | crawl | browse,
            scope == 0x01 || scope == 0x02,
            crawl == 0x00 || crawl == 0x40,
            browse == 0x00 || browse == 0x10 || browse == 0x20,
    ;
    assert(bits & 0x02 == 0x02 <==> scope == 0x02) by (bit_vector)
        requires
            bits == scope | crawl | browse,
            scope == 0x01 || scope == 0x02,
            crawl == 0x00 || crawl == 0x40,
            browse == 0x00 || browse == 0x10 || browse == 0x20,
    ;
    assert(bits & 0x40 == 0x40 <==> crawl == 0x40) by (bit_vector)
        requires
            bits == scope | crawl | browse,
            scope == 0x01 || scope == 0x02,
            crawl == 0x00 || crawl == 0x40,
            browse == 0x00 || browse == 0x10 || browse == 0x20,
    ;
    assert(bits & 0x10 == 0x10 <==> browse == 0x10) by (bit_vector)
        requires
            bits == scope | crawl | browse,
            scope == 0x01 || scope == 0x02,
            crawl == 0x00 || crawl == 0x40,
            browse == 0x00 || browse == 0x10 || browse == 0x20,
    ;
    assert(bits & 0x20 == 0x20 <==> browse == 0x20) by (bit_vector)
        requires
            bits == scope | crawl | browse,
            scope == 0x01 || scope == 0x02,
            crawl == 0x00 || crawl == 0x40,
            browse == 0x00 || browse == 0x10 || browse == 0x20,
    ;
}

/// The exclusion list after the default has been applied: where forced
/// browsing is part of the run and nothing is excluded, 404 is.
pub open spec fn effective_exclusions(forced: bool, exclude: Seq<u16>) -> Seq<u16> {
    if forced && exclude.len() == 0 {
        seq![404u16]
    } else {
        exclude
    }
}

/// Whether any of `hosts` holds the fuzzing marker.
pub fn hosts_hold_marker(hosts: &Vec<String>) -> (found: bool)
    ensures
        found == any_host_is_template(hosts.deep_view()),
{
    let mut i: usize = 0;
    while i < hosts.len()
        invariant
            i <= hosts.len(),
            forall|k: int| 0 <= k < i ==> !has_substring(hosts@[k]@, fuzz_marker()),
        decreases hosts.len() - i,
    {
        if contains_text(hosts[i].as_str(), "FUZZ") {
            assert(has_substring(hosts.deep_view()[i as int], fuzz_marker()));
            return true;
        }
        i += 1;
    }
    assert forall|k: int| 0 <= k < hosts.deep_view().len() implies !has_substring(
        #[trigger] hosts.deep_view()[k],
        fuzz_marker(),
    ) by {
        assert(hosts.deep_view()[k] == hosts@[k]@);
    }
    false
}

/// Where forced browsing is part of the run (the run does not recurse, or
/// it has a wordlist) and no exclusion list was given, 404 is excluded; every
/// other configuration is left as it is.
pub fn exclude_not_found_if_force_browsing(settings: &mut RinzlerSettings)
    ensures
        final(settings)@ == (SettingsView {
            status_exclude: effective_exclusions(
                forcing(old(settings).recurse, old(settings).wordlist is Some),
                old(settings).status_exclude@,
            ),
            ..old(settings)@
        }),
{
    if (!settings.recurse || settings.wordlist.is_some()) && settings.status_exclude.len() == 0 {
        let mut only: Vec<u16> = Vec::new();
        only.push(404);
        assert(only@ =~= seq![404u16]);
        settings.status_exclude = only;
    }
}

/// Derives the mode flags from the switches, the wordlist and the seed
/// hosts, then applies the default exclusion of forced browsing. A recursing
/// run with a wordlist gets the crawl mode and a forced-browsing mode together.
pub fn pre_configure(settings: &mut RinzlerSettings)
    ensures
        final(settings)@ == (SettingsView {
            flags: Flags {
                bits: derived_bits(
                    old(settings).scoped,
                    old(settings).recurse,
                    old(settings).wordlist is Some,
                    old(settings).hosts.deep_view(),
                ),
            },
            status_exclude: effective_exclusions(
                forcing(old(settings).recurse, old(settings).wordlist is Some),
                old(settings).status_exclude@,
            ),
            ..old(settings)@
        }),
{
    let mut flags = Flags::empty();
    if settings.scoped {
        flags.insert(Flags::SCOPED);
    } else {
        flags.insert(Flags::UNSCOPED);
    }
    let ghost scope = flags.bits;
    if settings.recurse {
        flags.insert(Flags::CRAWL);
    }
    let ghost crawled = flags.bits;
    if !settings.recurse || settings.wordlist.is_some() {
        if hosts_hold_marker(&settings.hosts) {
            flags.insert(Flags::FUZZ);
        } else {
            flags.insert(Flags::BRUTE);
        }
    }
    assert(flags.bits == derived_bits(
        settings.scoped,
        settings.recurse,
        settings.wordlist is Some,
        settings.hosts.deep_view(),
    )) by {
        assert(forall|x: u8| #[trigger] (x | 0u8) == x) by (bit_vector);
        assert(forall|x: u8| #[trigger] (0u8 | x) == x) by (bit_vector);
        assert(scope == if settings.scoped {
            Flags::SCOPED
        } else {
            Flags::UNSCOPED
        });
        assert(crawled == if settings.recurse {
            scope | Flags::CRAWL
        } else {
            scope
        });
    }
    settings.flags = flags;
    exclude_not_found_if_force_browsing(settings);
}

/// The size of the worker pool when none is asked for, or when the size
/// asked for is out of range.
pub const DEFAULT_THREADS: usize = 50;

/// The largest worker pool that is accepted.
pub const MAX_THREADS: usize = 1000;

/// Why a requested worker pool size was replaced by the default.
#[derive(Clone, Copy, Debug, PartialEq, Eq, Structural)]
pub enum ThreadWarning {
    /// No thread at all was asked for.
    TooFew,
    /// More threads than the largest accepted pool were asked for.
    TooMany,
}

/// The worker pool size for a requested size: the request itself where it
/// lies in `1..=MAX_THREADS`, the default otherwise.
pub open spec fn accepted_threads(requested: usize) -> usize {
    if 0 < requested <= MAX_THREADS {
        requested
    } else {
        DEFAULT_THREADS
    }
}

/// Checks a requested worker pool size, and says why it was replaced where it was.
pub fn thread_budget(requested: usize) -> (checked: (usize, Option<ThreadWarning>))
    ensures
        checked.0 == accepted_threads(requested),
        0 < checked.0 <= MAX_THREADS,
        checked.1 == if requested == 0 {
            Some(ThreadWarning::TooFew)
        } else if requested > MAX_THREADS {
            Some(ThreadWarning::TooMany)
        } else {
            None::<ThreadWarning>
        },
{
    if requested == 0 {
        (DEFAULT_THREADS, Some(ThreadWarning::TooFew))
    } else if requested > MAX_THREADS {
        (DEFAULT_THREADS, Some(ThreadWarning::TooMany))
    } else {
        (requested, None)
    }
}

/// Whether discovery recurses: with a wordlist only where a deep scan was
/// asked for, without one unless a shallow scan was asked for.
pub fn derive_recurse(wordlist_given: bool, deep: bool, shallow: bool) -> (recurse: bool)
    ensures
        recurse == if wordlist_given {
            deep
        } else {
            !shallow
        },
{
    if wordlist_given {
        deep
    } else {
        !shallow
    }
}

/// The verbosity for the number of times the verbosity switch was given.
pub fn verbosity_from_occurrences(count: u64) -> (level: Verbosity)
    ensures
        level == match count {
            0 => Verbosity::Warn,
            1 => Verbosity::Info,
            2 => Verbosity::Debug,
            _ => Verbosity::Trace,
        },
{
    match count {
        0 => Verbosity::Warn,
        1 => Verbosity::Info,
        2 => Verbosity::Debug,
        _ => Verbosity::Trace,
    }
}

/// A line of a wordlist file that is a comment: it starts with `#`.
pub open spec fn is_comment(line: Seq<char>) -> bool {
    line.len() > 0 && line[0] == '#'
}

/// The lines of a wordlist file that are words: the lines that are no
/// comments, in the order of the file.
pub open spec fn words_of(lines: Seq<Seq<char>>) -> Seq<Seq<char>>
    decreases lines.len(),
{
    if lines.len() == 0 {
        Seq::<Seq<char>>::empty()
    } else if is_comment(lines.last()) {
        words_of(lines.drop_last())
    } else {
        words_of(lines.drop_last()).push(lines.last())
    }
}

/// Drops the comment lines of a wordlist file and keeps the other lines in order.
pub fn wordlist_from_lines(lines: &Vec<String>) -> (words: Vec<String>)
    ensures
        words.deep_view() == words_of(lines.deep_view()),
{
    let mut words: Vec<String> = Vec::new();
    let mut i: usize = 0;
    assert(lines.deep_view().take(0) =~= Seq::<Seq<char>>::empty());
    assert(words.deep_view() =~= Seq::<Seq<char>>::empty());
    while i < lines.len()
        invariant
            i <= lines.len(),
            words.deep_view() == words_of(lines.deep_view().take(i as int)),
        decreases lines.len() - i,
    {
        let ghost before = words.deep_view();
        let ghost upto = lines.deep_view().take(i as int + 1);
        assert(upto.drop_last() =~= lines.deep_view().take(i as int));
        assert(upto.last() == lines@[i as int]@);
        if !begins_with(lines[i].as_str(), '#') {
            words.push(lines[i].clone());
            assert(words.deep_view() =~= before.push(lines@[i as int]@));
        }
        i += 1;
    }
    assert(lines.deep_view().take(lines.len() as int) =~= lines.deep_view());
    words
}

/// What the command line held, as plain values: every switch and value after
/// its text has been read, and the lines of the wordlist file where one was named.
pub struct Arguments {
    pub user_agent: String,
    pub rate_limit: u64,
    pub scoped: bool,
    pub deep: bool,
    pub shallow: bool,
    pub wordlist_filename: Option<String>,
    pub wordlist_lines: Option<Vec<String>>,
    pub status_include: Vec<u16>,
    pub status_exclude: Vec<u16>,
    pub verbosity: u64,
    pub quiet: bool,
    pub threads: usize,
    pub hosts: Option<Vec<String>>,
    pub single_host: String,
}

/// The seed hosts of a command line: the repeated host option where it was
/// given, the positional host alone otherwise.
pub open spec fn hosts_of(hosts: Option<Seq<Seq<char>>>, single: Seq<char>) -> Seq<Seq<char>> {
    match hosts {
        Some(list) => list,
        None => seq![single],
    }
}

/// Picks the seed hosts: the repeated host option wins over the positional host.
pub fn get_hosts_from_args(hosts: Option<Vec<String>>, single_host: String) -> (seeds: Vec<
    String,
>)
    ensures
        seeds.deep_view() == hosts_of(
            match hosts {
                Some(list) => Some(list.deep_view()),
                None => None,
            },
            single_host@,
        ),
{
    match hosts {
        Some(list) => list,
        None => {
            let mut seeds: Vec<String> = Vec::new();
            seeds.push(single_host);
            assert(seeds.deep_view() =~= seq![single_host@]);
            seeds
        },
    }
}

/// The configuration that a command line stands for, before the mode flags
/// are derived.
pub open spec fn settings_of(args: Arguments) -> SettingsView {
    SettingsView {
        user_agent: args.user_agent@,
        rate_limit: args.rate_limit,
        scoped: args.scoped,
        verbosity: match args.verbosity {
            0 => Verbosity::Warn,
            1 => Verbosity::Info,
            2 => Verbosity::Debug,
            _ => Verbosity::Trace,
        },
        quiet: args.quiet,
        hosts: hosts_of(
            match args.hosts {
                Some(list) => Some(list.deep_view()),
                None => None,
            },
            args.single_host@,
        ),
        recurse: if args.wordlist_filename is Some {
            args.deep
        } else {
            !args.shallow
        },
        wordlist: match args.wordlist_lines {
            Some(lines) => Some(words_of(lines.deep_view())),
            None => None,
        },
        wordlist_filename: match args.wordlist_filename {
            Some(name) => Some(name@),
            None => None,
        },
        status_include: args.status_include@,
        status_exclude: args.status_exclude@,
        flags: Flags { bits: 0 },
        max_threads: accepted_threads(args.threads),
    }
}

impl RinzlerSettings {
    /// Builds the configuration of a run from the values of the command line:
    /// the recursion switch, the words of the wordlist and the worker pool size
    /// are worked out, then the mode flags and the default exclusion.
    pub fn from_arguments(args: Arguments) -> (settings: RinzlerSettings)
        ensures
            settings@ == (SettingsView {
                flags: Flags {
                    bits: derived_bits(
                        settings_of(args).scoped,
                        settings_of(args).recurse,
                        settings_of(args).wordlist is Some,
                        settings_of(args).hosts,
                    ),
                },
                status_exclude: effective_exclusions(
                    forcing(settings_of(args).recurse, settings_of(args).wordlist is Some),
                    settings_of(args).status_exclude,
                ),
                ..settings_of(args)
            }),
    {
        let recurse = derive_recurse(args.wordlist_filename.is_some(), args.deep, args.shallow);
        let wordlist = match &args.wordlist_lines {
            Some(lines) => Some(wordlist_from_lines(lines)),
            None => None,
        };
        let (max_threads, _) = thread_budget(args.threads);
        let mut settings = RinzlerSettings {
            user_agent: args.user_agent,
            rate_limit: args.rate_limit,
            scoped: args.scoped,
            verbosity: verbosity_from_occurrences(args.verbosity),
            quiet: args.quiet,
            hosts: get_hosts_from_args(args.hosts, args.single_host),
            recurse,
            wordlist,
            wordlist_filename: args.wordlist_filename,
            status_include: args.status_include,
            status_exclude: args.status_exclude,
            flags: Flags::empty(),
            max_threads,
        };
        assert(settings@ == settings_of(args));
        pre_configure(&mut settings);
        settings
    }
}

/// One line of a description: a label, a value, and the end of the line.
pub open spec fn labelled(label: Seq<char>, value: Seq<char>) -> Seq<char> {
    label + value + "\n"@
}

/// The numerals of a list of status codes.
pub open spec fn numerals(codes: Seq<u16>) -> Seq<Seq<char>> {
    Seq::new(codes.len(), |i: int| decimal(codes[i] as nat))
}

/// The line of a list of status codes: nothing for an empty list.
pub open spec fn codes_line(label: Seq<char>, codes: Seq<u16>) -> Seq<char> {
    if codes.len() == 0 {
        Seq::<char>::empty()
    } else {
        labelled(label, joined(numerals(codes), ", "@))
    }
}

/// The line of the wordlist: nothing where no file was named.
pub open spec fn wordlist_line(
    filename: Option<Seq<char>>,
    wordlist: Option<Seq<Seq<char>>>,
) -> Seq<char> {
    match filename {
        Some(name) => "  Wordlist "@ + name + " with "@ + decimal(
            match wordlist {
                Some(words) => words.len(),
                None => 0,
            },
        ) + " words\n"@,
        None => Seq::<char>::empty(),
    }
}

/// A configuration in words, one line for each thing that is set.
pub open spec fn description(settings: SettingsView) -> Seq<char> {
    labelled("  Flags:       "@, modes_text(settings.flags@)) + codes_line(
        "  Included status:  "@,
        settings.status_include,
    ) + codes_line("  Excluded status:  "@, settings.status_exclude) + labelled(
        "  User-Agent:  "@,
        settings.user_agent,
    ) + labelled("  Throttle:    "@, decimal(settings.rate_limit as nat) + "ms"@) + labelled(
        "  Log Level:   "@,
        settings.verbosity.name(),
    ) + labelled("  Targets:     "@, joined(settings.hosts, ", "@)) + labelled(
        "  Threads:     "@,
        decimal(settings.max_threads as nat),
    ) + wordlist_line(settings.wordlist_filename, settings.wordlist)
}

/// Writes one line of a description.
fn write_labelled(label: &str, value: &str) -> (line: String)
    ensures
        line@ == labelled(label@, value@),
{
    let mut line = String::from_str(label);
    line.append(value);
    line.append("\n");
    line
}

/// Writes the line of a list of status codes.
fn write_codes_line(label: &str, codes: &Vec<u16>) -> (line: String)
    ensures
        line@ == codes_line(label@, codes@),
{
    if codes.len() == 0 {
        return String::new();
    }
    let mut texts: Vec<String> = Vec::new();
    let mut i: usize = 0;
    while i < codes.len()
        invariant
            i <= codes.len(),
            texts.len() == i,
            forall|k: int| 0 <= k < i ==> #[trigger] texts@[k]@ == decimal(codes@[k] as nat),
        decreases codes.len() - i,
    {
        texts.push(to_decimal(codes[i] as u64));
        i += 1;
    }
    assert(texts.deep_view() =~= numerals(codes@));
    let list = join_strings(&texts, ", ");
    write_labelled(label, list.as_str())
}

impl RinzlerSettings {
    /// The configuration in words, as the banner shows it.
    pub fn describe(&self) -> (text: String)
        ensures
            text@ == description(self@),
    {
        let mut text = write_labelled("  Flags:       ", self.flags.as_text().as_str());
        text.append(write_codes_line("  Included status:  ", &self.status_include).as_str());
        text.append(write_codes_line("  Excluded status:  ", &self.status_exclude).as_str());
        text.append(write_labelled("  User-Agent:  ", self.user_agent.as_str()).as_str());
        let mut throttle = to_decimal(self.rate_limit);
        throttle.append("ms");
        text.append(write_labelled("  Throttle:    ", throttle.as_str()).as_str());
        text.append(write_labelled("  Log Level:   ", self.verbosity.as_text().as_str()).as_str());
        let hosts = join_strings(&self.hosts, ", ");
        text.append(write_labelled("  Targets:     ", hosts.as_str()).as_str());
        let threads = to_decimal(self.max_threads as u64);
        text.append(write_labelled("  Threads:     ", threads.as_str()).as_str());
        match &self.wordlist_filename {
            Some(name) => {
                let count = match &self.wordlist {
                    Some(words) => words.len(),
                    None => 0,
                };
                text.append("  Wordlist ");
                text.append(name.as_str());
                text.append(" with ");
                text.append(to_decimal(count as u64).as_str());
                text.append(" words\n");
            },
            None => {},
        }
        assert(text@ =~= description(self@));
        text
    }
}

} // verus!
