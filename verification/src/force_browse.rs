//! Forced browsing: one probe per word of the wordlist against a base
//! target. Each probe is a few decisions around requests that the caller
//! makes, so probes can run side by side.

use crate::client::{
    head_of, seen, truncated_get_of, HttpResponse, Method, Request, ResponseView,
};
use crate::config::RinzlerSettings;
use crate::links::{present, resolutions};
use crate::message::{
    about, attempt, session_start, ConsoleMessage, ConsoleMessageType, MessageView, views_of,
};
use crate::status::{allows, status_allowed};
use crate::target::{
    answered, fresh_id, is_random_id, now_millis, unrequested, CrawlTarget, TargetView,
};
use crate::visited::VisitedSet;
use crate::web::{join_reference, joined_url};
use vstd::prelude::*;

verus! {

/// A HEAD answered with a server error settles nothing.
pub open spec fn is_inconclusive(status: u16) -> bool {
    500 <= status <= 599
}

/// What follows the HEAD of a probe.
pub enum HeadVerdict {
    /// The HEAD was answered with a server error: ask again with a truncated GET.
    RetryWithGet,
    /// The probe is settled: with the response to the HEAD, or with nothing
    /// where the request failed.
    Settled { response: Option<HttpResponse> },
}

/// Decides what follows the HEAD of a probe: a retry with GET exactly when
/// the HEAD was answered with a status from 500 to 599.
pub fn after_probe_head(head: Option<HttpResponse>) -> (verdict: HeadVerdict)
    ensures
        match head {
            Some(response) => if is_inconclusive(response.status) {
                verdict is RetryWithGet
            } else {
                verdict == (HeadVerdict::Settled { response: Some(response) })
            },
            None => verdict == (HeadVerdict::Settled { response: None }),
        },
{
    match head {
        Some(response) => {
            if response.status >= 500 && response.status <= 599 {
                HeadVerdict::RetryWithGet
            } else {
                HeadVerdict::Settled { response: Some(response) }
            }
        },
        None => HeadVerdict::Settled { response: None },
    }
}

/// The messages at the start of a probe of `address` for the session on
/// `base`: the attempt, with the record of the candidate.
pub open spec fn opening(base: TargetView, address: Seq<char>, id: u128, instant: i64) -> Seq<
    MessageView,
> {
    seq![attempt(unrequested(id, address, instant), base)]
}

/// Whether a settled probe is a hit: it was answered, and the status filter
/// lets the status through.
pub open spec fn is_hit(
    included: Seq<u16>,
    excluded: Seq<u16>,
    response: Option<ResponseView>,
) -> bool {
    match response {
        Some(answer) => status_allowed(included, excluded, answer.status),
        None => false,
    }
}

/// The messages at the end of a probe for the session on `base`: the hit,
/// where there is one, with the record of the response under the identity of
/// the base; then, whatever happened, the progress of the session.
pub open spec fn closing(
    included: Seq<u16>,
    excluded: Seq<u16>,
    base: TargetView,
    response: Option<ResponseView>,
    method: Method,
    instant: i64,
) -> Seq<MessageView> {
    let progress = about(ConsoleMessageType::ForceBrowseProgress, base);
    if is_hit(included, excluded, response) {
        seq![
            about(
                ConsoleMessageType::ForceBrowseHit,
                answered(base, response->Some_0, method, instant),
            ),
            progress,
        ]
    } else {
        seq![progress]
    }
}

/// The visited set after a probe of `candidate`: a hit marks the address
/// that was probed.
pub open spec fn marked(
    visited: Set<Seq<char>>,
    hit: bool,
    candidate: Seq<char>,
) -> Set<Seq<char>> {
    if hit {
        visited.insert(candidate)
    } else {
        visited
    }
}

/// A probe that has started: the record of the candidate and the message
/// that announces the attempt.
pub struct Probe {
    pub candidate: CrawlTarget,
    pub announcement: ConsoleMessage,
}

impl Probe {
    /// The first request of the probe: a plain HEAD to the candidate.
    pub fn request(&self) -> (request: Request)
        ensures
            request@ == head_of(self.candidate.url@),
    {
        Request::head(self.candidate.url.clone())
    }

    /// The request that follows an inconclusive HEAD: a truncated GET to the
    /// candidate.
    pub fn retry(&self) -> (request: Request)
        ensures
            request@ == truncated_get_of(self.candidate.url@),
    {
        Request::truncated_get(self.candidate.url.clone())
    }
}

/// Starts the probe of an address that `word` resolved to, under the given
/// identity and instant.
pub fn open_probe(base: &CrawlTarget, address: String, id: u128, instant: i64) -> (probe: Probe)
    ensures
        probe.candidate@ == unrequested(id, address@, instant),
        seq![probe.announcement@] == opening(base@, address@, id, instant),
{
    let candidate = CrawlTarget::observed(id, address, instant);
    let announcement = ConsoleMessage::force_browse_attempt(&candidate, base);
    Probe { candidate, announcement }
}

/// Starts the probe of `word` against `base`: resolves the word against the
/// address of the base and announces the attempt. A word that does not
/// resolve is skipped: there is no probe and no message.
pub fn begin_probe(base: &CrawlTarget, word: &str) -> (started: Option<Probe>)
    ensures
        match started {
            Some(probe) => {
                &&& is_random_id(probe.candidate.id)
                &&& joined_url(base.url@, word@) == Some(probe.candidate.url@)
                &&& probe.candidate@ == unrequested(
                    probe.candidate.id,
                    probe.candidate.url@,
                    probe.candidate.timestamp,
                )
                &&& seq![probe.announcement@] == opening(
                    base@,
                    probe.candidate.url@,
                    probe.candidate.id,
                    probe.candidate.timestamp,
                )
            },
            None => joined_url(base.url@, word@) is None,
        },
{
    match join_reference(base.url.as_str(), word) {
        Some(address) => {
            let id = fresh_id();
            let instant = now_millis();
            Some(open_probe(base, address, id, instant))
        },
        None => None,
    }
}

/// Ends a probe that was settled at `instant`. A response whose status the
/// filter lets through is a hit: the address that was probed is marked as
/// visited and the hit is reported. The progress of the session is reported
/// in every case, last.
pub fn settle_probe(
    settings: &RinzlerSettings,
    base: &CrawlTarget,
    candidate: &CrawlTarget,
    response: Option<HttpResponse>,
    method: Method,
    instant: i64,
    visited: &mut VisitedSet,
) -> (messages: Vec<ConsoleMessage>)
    ensures
        views_of(messages@) == closing(
            settings.status_include@,
            settings.status_exclude@,
            base@,
            seen(response),
            method,
            instant,
        ),
        messages@.len() == if is_hit(
            settings.status_include@,
            settings.status_exclude@,
            seen(response),
        ) {
            2nat
        } else {
            1nat
        },
        final(visited)@ == marked(
            old(visited)@,
            is_hit(
                settings.status_include@,
                settings.status_exclude@,
                seen(response),
            ),
            candidate.url@,
        ),
{
    let mut messages: Vec<ConsoleMessage> = Vec::new();
    match response {
        Some(answer) => {
            if allows(&settings.status_include, &settings.status_exclude, answer.status) {
                visited.insert(&candidate.url);
                let mut hit = base.clone();
                hit.record_response(&answer, method, instant);
                messages.push(ConsoleMessage::force_browse_hit(&hit));
            }
        },
        None => {},
    }
    messages.push(ConsoleMessage::force_browse_progress(base));
    assert(views_of(messages@) =~= closing(
        settings.status_include@,
        settings.status_exclude@,
        base@,
        seen(response),
        method,
        instant,
    ));
    messages
}

/// Ends a probe now: as `settle_probe`, at the present instant.
pub fn finish_probe(
    settings: &RinzlerSettings,
    base: &CrawlTarget,
    candidate: &CrawlTarget,
    response: Option<HttpResponse>,
    method: Method,
    visited: &mut VisitedSet,
) -> (messages: Vec<ConsoleMessage>)
    ensures
        exists|instant: i64|
            views_of(messages@) == #[trigger] closing(
                settings.status_include@,
                settings.status_exclude@,
                base@,
                seen(response),
                method,
                instant,
            ),
        messages@.len() == if is_hit(
            settings.status_include@,
            settings.status_exclude@,
            seen(response),
        ) {
            2nat
        } else {
            1nat
        },
        final(visited)@ == marked(
            old(visited)@,
            is_hit(
                settings.status_include@,
                settings.status_exclude@,
                seen(response),
            ),
            candidate.url@,
        ),
{
    let instant = now_millis();
    settle_probe(settings, base, candidate, response, method, instant, visited)
}

/// What follows the answer to the HEAD of a probe.
pub enum ProbeStep {
    /// The HEAD settled nothing: make this request, then call `on_get`.
    Retry { request: Request },
    /// The probe is over: these are its last messages.
    Done { messages: Vec<ConsoleMessage> },
}

impl Probe {
    /// Takes the answer to the HEAD of the probe, or its failure. A server
    /// error asks for the truncated GET and changes nothing; every other
    /// outcome ends the probe, as `finish_probe` says, for the method HEAD.
    pub fn on_head(
        &self,
        settings: &RinzlerSettings,
        base: &CrawlTarget,
        head: Option<HttpResponse>,
        visited: &mut VisitedSet,
    ) -> (step: ProbeStep)
        ensures
            match step {
                ProbeStep::Retry { request } => {
                    &&& head is Some && is_inconclusive(head->Some_0.status)
                    &&& request@ == truncated_get_of(self.candidate.url@)
                    &&& final(visited)@ == old(visited)@
                },
                ProbeStep::Done { messages } => {
                    &&& !(head is Some && is_inconclusive(head->Some_0.status))
                    &&& exists|instant: i64|
                        views_of(messages@) == #[trigger] closing(
                            settings.status_include@,
                            settings.status_exclude@,
                            base@,
                            seen(head),
                            Method::Head,
                            instant,
                        )
                    &&& messages@.len() == if is_hit(
                        settings.status_include@,
                        settings.status_exclude@,
                        seen(head),
                    ) {
                        2nat
                    } else {
                        1nat
                    }
                    &&& final(visited)@ == marked(
                        old(visited)@,
                        is_hit(settings.status_include@, settings.status_exclude@, seen(head)),
                        self.candidate.url@,
                    )
                },
            },
    {
        match after_probe_head(head) {
            HeadVerdict::RetryWithGet => ProbeStep::Retry { request: self.retry() },
            HeadVerdict::Settled { response } => ProbeStep::Done {
                messages: finish_probe(
                    settings,
                    base,
                    &self.candidate,
                    response,
                    Method::Head,
                    visited,
                ),
            },
        }
    }

    /// Takes the answer to the truncated GET of the probe, or its failure,
    /// and ends the probe, as `finish_probe` says, for the method GET.
    pub fn on_get(
        &self,
        settings: &RinzlerSettings,
        base: &CrawlTarget,
        got: Option<HttpResponse>,
        visited: &mut VisitedSet,
    ) -> (messages: Vec<ConsoleMessage>)
        ensures
            exists|instant: i64|
                views_of(messages@) == #[trigger] closing(
                    settings.status_include@,
                    settings.status_exclude@,
                    base@,
                    seen(got),
                    Method::Get,
                    instant,
                ),
            messages@.len() == if is_hit(
                settings.status_include@,
                settings.status_exclude@,
                seen(got),
            ) {
                2nat
            } else {
                1nat
            },
            final(visited)@ == marked(
                old(visited)@,
                is_hit(settings.status_include@, settings.status_exclude@, seen(got)),
                self.candidate.url@,
            ),
    {
        finish_probe(settings, base, &self.candidate, got, Method::Get, visited)
    }
}

/// How one probe ran: the identity and the instant of the candidate's
/// record, how the probe was settled, and when.
pub struct ProbeRun {
    pub id: u128,
    pub started: i64,
    pub response: Option<ResponseView>,
    pub method: Method,
    pub settled: i64,
}

/// The messages of the probe of one word: none where the word does not
/// resolve against the base; otherwise the attempt, the hit where there is
/// one, and the progress.
pub open spec fn probe_messages(
    included: Seq<u16>,
    excluded: Seq<u16>,
    base: TargetView,
    word: Seq<char>,
    run: ProbeRun,
) -> Seq<MessageView> {
    match joined_url(base.url, word) {
        Some(address) => opening(base, address, run.id, run.started) + closing(
            included,
            excluded,
            base,
            run.response,
            run.method,
            run.settled,
        ),
        None => Seq::empty(),
    }
}

/// The messages of the probes of a wordlist, word after word.
pub open spec fn probes_messages(
    included: Seq<u16>,
    excluded: Seq<u16>,
    base: TargetView,
    words: Seq<Seq<char>>,
    runs: Seq<ProbeRun>,
) -> Seq<MessageView>
    decreases words.len(),
{
    if words.len() == 0 {
        Seq::empty()
    } else {
        probes_messages(included, excluded, base, words.drop_last(), runs.drop_last())
            + probe_messages(included, excluded, base, words.last(), runs.last())
    }
}

/// The messages of a whole session on `base`: its start, then the probes.
pub open spec fn session_messages(
    included: Seq<u16>,
    excluded: Seq<u16>,
    base: TargetView,
    words: Seq<Seq<char>>,
    runs: Seq<ProbeRun>,
) -> Seq<MessageView> {
    seq![session_start(words.len() as u64, base)] + probes_messages(
        included,
        excluded,
        base,
        words,
        runs,
    )
}

/// How many messages of one kind a list holds.
pub open spec fn count_kind(messages: Seq<MessageView>, kind: ConsoleMessageType) -> nat
    decreases messages.len(),
{
    if messages.len() == 0 {
        0
    } else {
        count_kind(messages.drop_last(), kind) + if messages.last().message_type == kind {
            1nat
        } else {
            0nat
        }
    }
}

/// Counting over two lists, one after the other, adds up.
pub proof fn lemma_count_kind_add(
    first: Seq<MessageView>,
    second: Seq<MessageView>,
    kind: ConsoleMessageType,
)
    ensures
        count_kind(first + second, kind) == count_kind(first, kind) + count_kind(second, kind),
    decreases second.len(),
{
    if second.len() == 0 {
        assert(first + second =~= first);
    } else {
        assert((first + second).drop_last() =~= first + second.drop_last());
        assert((first + second).last() == second.last());
        lemma_count_kind_add(first, second.drop_last(), kind);
    }
}

/// Taking one message out lowers the count of its kind by one and leaves the
/// other counts as they were.
pub proof fn lemma_count_kind_remove(
    messages: Seq<MessageView>,
    at: int,
    kind: ConsoleMessageType,
)
    requires
        0 <= at < messages.len(),
    ensures
        count_kind(messages, kind) == count_kind(messages.remove(at), kind) + if messages[at].message_type
            == kind {
            1nat
        } else {
            0nat
        },
    decreases messages.len(),
{
    if at == messages.len() - 1 {
        assert(messages.remove(at) =~= messages.drop_last());
    } else {
        assert(messages.remove(at).drop_last() =~= messages.drop_last().remove(at));
        assert(messages.remove(at).last() == messages.last());
        lemma_count_kind_remove(messages.drop_last(), at, kind);
    }
}

/// The count of a kind does not depend on the order of the messages: two
/// lists that hold the same messages, each as often, count alike.
pub proof fn lemma_count_kind_any_order(
    first: Seq<MessageView>,
    second: Seq<MessageView>,
    kind: ConsoleMessageType,
)
    requires
        first.to_multiset() == second.to_multiset(),
    ensures
        count_kind(first, kind) == count_kind(second, kind),
    decreases first.len(),
{
    broadcast use vstd::seq_lib::group_to_multiset_ensures;

    if first.len() == 0 {
        assert(second.to_multiset().len() == 0);
        assert(second.len() == 0);
    } else {
        let last = first.last();
        assert(first.contains(last)) by {
            assert(first[first.len() - 1] == last);
        }
        assert(first.to_multiset().count(last) > 0);
        assert(second.contains(last));
        let at = choose|at: int| 0 <= at < second.len() && second[at] == last;
        assert(first.drop_last() =~= first.remove(first.len() - 1));
        vstd::seq_lib::to_multiset_remove(first, first.len() - 1);
        vstd::seq_lib::to_multiset_remove(second, at);
        lemma_count_kind_any_order(first.drop_last(), second.remove(at), kind);
        lemma_count_kind_remove(second, at, kind);
    }
}

/// The number of words that resolve against `base`.
pub open spec fn resolving(base: Seq<char>, words: Seq<Seq<char>>) -> nat {
    present(resolutions(base, words)).len()
}

/// One probe announces one attempt and reports progress once where its word
/// resolves, and says nothing where it does not; it reports at most one hit.
pub proof fn lemma_probe_counts(
    included: Seq<u16>,
    excluded: Seq<u16>,
    base: TargetView,
    word: Seq<char>,
    run: ProbeRun,
)
    ensures
        ({
            let said = probe_messages(included, excluded, base, word, run);
            let one: nat = if joined_url(base.url, word) is Some {
                1
            } else {
                0
            };
            &&& count_kind(said, ConsoleMessageType::ForceBrowseAttempt) == one
            &&& count_kind(said, ConsoleMessageType::ForceBrowseProgress) == one
            &&& count_kind(said, ConsoleMessageType::ForceBrowseHit) <= one
            &&& count_kind(said, ConsoleMessageType::ForceBrowseStart) == 0
        }),
{
    reveal_with_fuel(count_kind, 3);
    let said = probe_messages(included, excluded, base, word, run);
    if joined_url(base.url, word) is Some {
        let address = joined_url(base.url, word)->Some_0;
        let first = opening(base, address, run.id, run.started);
        let second = closing(included, excluded, base, run.response, run.method, run.settled);
        assert(first.drop_last() =~= Seq::<MessageView>::empty());
        if is_hit(included, excluded, run.response) {
            assert(second.drop_last().drop_last() =~= Seq::<MessageView>::empty());
            assert(second.drop_last().last() == second[0]);
        } else {
            assert(second.drop_last() =~= Seq::<MessageView>::empty());
        }
        lemma_count_kind_add(first, second, ConsoleMessageType::ForceBrowseAttempt);
        lemma_count_kind_add(first, second, ConsoleMessageType::ForceBrowseProgress);
        lemma_count_kind_add(first, second, ConsoleMessageType::ForceBrowseHit);
        lemma_count_kind_add(first, second, ConsoleMessageType::ForceBrowseStart);
    }
}

/// Completeness of forced browsing: a session starts once, and announces
/// one attempt and reports progress once for every word that resolves
/// against the base, however many probes are hits and however they were
/// answered. Where every word resolves, that is once per word of the wordlist.
pub proof fn lemma_force_browse_completeness(
    included: Seq<u16>,
    excluded: Seq<u16>,
    base: TargetView,
    words: Seq<Seq<char>>,
    runs: Seq<ProbeRun>,
)
    requires
        runs.len() == words.len(),
    ensures
        ({
            let said = session_messages(included, excluded, base, words, runs);
            &&& count_kind(said, ConsoleMessageType::ForceBrowseStart) == 1
            &&& count_kind(said, ConsoleMessageType::ForceBrowseAttempt) == resolving(
                base.url,
                words,
            )
            &&& count_kind(said, ConsoleMessageType::ForceBrowseProgress) == resolving(
                base.url,
                words,
            )
            &&& count_kind(said, ConsoleMessageType::ForceBrowseHit) <= resolving(base.url, words)
            &&& resolving(base.url, words) <= words.len()
            &&& (forall|i: int| 0 <= i < words.len() ==> joined_url(base.url, #[trigger] words[i])
                is Some) ==> resolving(base.url, words) == words.len()
        }),
{
    reveal_with_fuel(count_kind, 2);
    let start = seq![session_start(words.len() as u64, base)];
    let probes = probes_messages(included, excluded, base, words, runs);
    assert(start.drop_last() =~= Seq::<MessageView>::empty());
    lemma_probes_counts(included, excluded, base, words, runs);
    lemma_count_kind_add(start, probes, ConsoleMessageType::ForceBrowseStart);
    lemma_count_kind_add(start, probes, ConsoleMessageType::ForceBrowseAttempt);
    lemma_count_kind_add(start, probes, ConsoleMessageType::ForceBrowseProgress);
    lemma_count_kind_add(start, probes, ConsoleMessageType::ForceBrowseHit);
    lemma_resolving(base.url, words);
}

/// Completeness of forced browsing when the probes run side by side:
/// however the messages of a session are interleaved, what is observed holds
/// one start, and one attempt and one progress report for every word that
/// resolves against the base.
pub proof fn lemma_force_browse_completeness_in_any_order(
    included: Seq<u16>,
    excluded: Seq<u16>,
    base: TargetView,
    words: Seq<Seq<char>>,
    runs: Seq<ProbeRun>,
    observed: Seq<MessageView>,
)
    requires
        runs.len() == words.len(),
        observed.to_multiset() == session_messages(
            included,
            excluded,
            base,
            words,
            runs,
        ).to_multiset(),
    ensures
        count_kind(observed, ConsoleMessageType::ForceBrowseStart) == 1,
        count_kind(observed, ConsoleMessageType::ForceBrowseAttempt) == resolving(
            base.url,
            words,
        ),
        count_kind(observed, ConsoleMessageType::ForceBrowseProgress) == resolving(
            base.url,
            words,
        ),
        count_kind(observed, ConsoleMessageType::ForceBrowseHit) <= resolving(base.url, words),
{
    let said = session_messages(included, excluded, base, words, runs);
    lemma_force_browse_completeness(included, excluded, base, words, runs);
    lemma_count_kind_any_order(observed, said, ConsoleMessageType::ForceBrowseStart);
    lemma_count_kind_any_order(observed, said, ConsoleMessageType::ForceBrowseAttempt);
    lemma_count_kind_any_order(observed, said, ConsoleMessageType::ForceBrowseProgress);
    lemma_count_kind_any_order(observed, said, ConsoleMessageType::ForceBrowseHit);
}

/// The counts of the probes of a wordlist.
proof fn lemma_probes_counts(
    included: Seq<u16>,
    excluded: Seq<u16>,
    base: TargetView,
    words: Seq<Seq<char>>,
    runs: Seq<ProbeRun>,
)
    requires
        runs.len() == words.len(),
    ensures
        ({
            let said = probes_messages(included, excluded, base, words, runs);
            &&& count_kind(said, ConsoleMessageType::ForceBrowseStart) == 0
            &&& count_kind(said, ConsoleMessageType::ForceBrowseAttempt) == resolving(
                base.url,
                words,
            )
            &&& count_kind(said, ConsoleMessageType::ForceBrowseProgress) == resolving(
                base.url,
                words,
            )
            &&& count_kind(said, ConsoleMessageType::ForceBrowseHit) <= resolving(base.url, words)
        }),
    decreases words.len(),
{
    if words.len() == 0 {
        assert(resolutions(base.url, words) =~= Seq::<Option<Seq<char>>>::empty());
    } else {
        let earlier = probes_messages(
            included,
            excluded,
            base,
            words.drop_last(),
            runs.drop_last(),
        );
        let last = probe_messages(included, excluded, base, words.last(), runs.last());
        lemma_probes_counts(included, excluded, base, words.drop_last(), runs.drop_last());
        lemma_probe_counts(included, excluded, base, words.last(), runs.last());
        lemma_count_kind_add(earlier, last, ConsoleMessageType::ForceBrowseStart);
        lemma_count_kind_add(earlier, last, ConsoleMessageType::ForceBrowseAttempt);
        lemma_count_kind_add(earlier, last, ConsoleMessageType::ForceBrowseProgress);
        lemma_count_kind_add(earlier, last, ConsoleMessageType::ForceBrowseHit);
        assert(resolutions(base.url, words).drop_last() =~= resolutions(
            base.url,
            words.drop_last(),
        ));
        assert(resolutions(base.url, words).last() == joined_url(base.url, words.last()));
    }
}

/// No more words resolve than there are, and all of them do where each does.
proof fn lemma_resolving(base: Seq<char>, words: Seq<Seq<char>>)
    ensures
        resolving(base, words) <= words.len(),
        (forall|i: int| 0 <= i < words.len() ==> joined_url(base, #[trigger] words[i]) is Some)
            ==> resolving(base, words) == words.len(),
    decreases words.len(),
{
    if words.len() == 0 {
        assert(resolutions(base, words) =~= Seq::<Option<Seq<char>>>::empty());
    } else {
        lemma_resolving(base, words.drop_last());
        assert(resolutions(base, words).drop_last() =~= resolutions(base, words.drop_last()));
        assert(resolutions(base, words).last() == joined_url(base, words.last()));
        if forall|i: int| 0 <= i < words.len() ==> joined_url(base, #[trigger] words[i]) is Some {
            assert forall|i: int| 0 <= i < words.drop_last().len() implies joined_url(
                base,
                #[trigger] words.drop_last()[i],
            ) is Some by {
                assert(words.drop_last()[i] == words[i]);
            }
            assert(joined_url(base, words[words.len() - 1]) is Some);
        }
    }
}

} // verus!
