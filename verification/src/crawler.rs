//! The recursive crawler of one seed host, as a state machine. A step takes
//! what happened to the last request and returns what to do next, with the
//! messages for the observer. The tree of links is walked depth first from an
//! explicit stack, so no step waits for the network.

use crate::client::{
    head_of, seen, truncated_get_of, HttpResponse, Method, Request, RequestView, ResponseView,
};
use crate::config::{Flags, RinzlerSettings, SettingsView};
use crate::invariants::{in_order, lemma_step_rules};
use crate::links::{discover_links, in_scope, is_in_scope, page_links};
use crate::message::{
    aborted, about, session_start, ConsoleMessage, ConsoleMessageType, ControllerMessage,
    MessageView, views_of,
};
use crate::status::{allows, status_allowed};
use crate::target::{
    answered, fresh_id, is_random_id, now_millis, unrequested, CrawlTarget, TargetView,
};
use crate::text::{contains_text, has_substring};
use crate::visited::VisitedSet;
use crate::web::{normalize, parsed_url};
use vstd::prelude::*;

verus! {

/// Where a crawler stands.
#[derive(Clone, Copy, Debug, PartialEq, Eq, Structural)]
pub enum Phase {
    /// Nothing has happened yet.
    Idle,
    /// Between two targets.
    Ready,
    /// The forced-browsing session of the current target is running.
    Probing,
    /// The HEAD for the current target is under way.
    AwaitHead,
    /// The truncated GET for the current target is under way.
    AwaitBody,
    /// Every target has been dealt with.
    Done,
    /// The seed was no address.
    Aborted,
}

/// What happened since the last step.
pub enum CrawlEvent {
    /// Nothing: the crawler is asked to go on.
    Continue,
    /// The forced-browsing session of the current target is over.
    ForceBrowseDone,
    /// The HEAD was answered, or failed.
    Head { response: Option<HttpResponse> },
    /// The truncated GET gave this text, or failed.
    Body { text: Option<String> },
}

/// An event as plain mathematical values.
pub enum EventView {
    Continue,
    ForceBrowseDone,
    Head { response: Option<ResponseView> },
    Body { text: Option<Seq<char>> },
}

impl View for CrawlEvent {
    type V = EventView;

    open spec fn view(&self) -> EventView {
        match self {
            CrawlEvent::Continue => EventView::Continue,
            CrawlEvent::ForceBrowseDone => EventView::ForceBrowseDone,
            CrawlEvent::Head { response } => EventView::Head { response: seen(*response) },
            CrawlEvent::Body { text } => EventView::Body {
                text: match text {
                    Some(body) => Some(body@),
                    None => None,
                },
            },
        }
    }
}

/// What the caller is to do next.
pub enum CrawlAction {
    /// Nothing to request: step again with `Continue`.
    Proceed,
    /// Run the forced-browsing session on `base`, then step with `ForceBrowseDone`.
    ForceBrowse { base: CrawlTarget },
    /// Send a HEAD to `url`, then step with `Head`.
    Head { url: String },
    /// Send a truncated GET to `url`, then step with `Body`.
    Get { url: String },
    /// The crawl is over: report its completion.
    Finished,
    /// The seed was no address: the run ends, and no completion is reported.
    Aborted,
    /// The event does not fit the phase: nothing has changed.
    Rejected,
}

/// An action as plain mathematical values.
pub enum ActionView {
    Proceed,
    ForceBrowse { base: TargetView },
    Head { url: Seq<char> },
    Get { url: Seq<char> },
    Finished,
    Aborted,
    Rejected,
}

impl View for CrawlAction {
    type V = ActionView;

    open spec fn view(&self) -> ActionView {
        match self {
            CrawlAction::Proceed => ActionView::Proceed,
            CrawlAction::ForceBrowse { base } => ActionView::ForceBrowse { base: base@ },
            CrawlAction::Head { url } => ActionView::Head { url: url@ },
            CrawlAction::Get { url } => ActionView::Get { url: url@ },
            CrawlAction::Finished => ActionView::Finished,
            CrawlAction::Aborted => ActionView::Aborted,
            CrawlAction::Rejected => ActionView::Rejected,
        }
    }
}

/// The request that an action asks for: a plain HEAD for discovery, a
/// truncated GET for reading a page; none for the other actions.
pub open spec fn request_of(action: ActionView) -> Option<RequestView> {
    match action {
        ActionView::Head { url } => Some(head_of(url)),
        ActionView::Get { url } => Some(truncated_get_of(url)),
        _ => None,
    }
}

impl CrawlAction {
    /// The request that the action asks for, where it asks for one.
    pub fn request(&self) -> (request: Option<Request>)
        ensures
            match request {
                Some(asked) => request_of(self@) == Some(asked@),
                None => request_of(self@) is None,
            },
    {
        match self {
            CrawlAction::Head { url } => Some(Request::head(url.clone())),
            CrawlAction::Get { url } => Some(Request::truncated_get(url.clone())),
            _ => None,
        }
    }
}

/// A crawler as plain mathematical values.
pub struct CrawlerView {
    /// The seed.
    pub target: Seq<char>,
    pub settings: SettingsView,
    pub scoped_domains: Seq<Seq<char>>,
    pub phase: Phase,
    /// The seed itself is the current target, or nothing has happened yet.
    pub at_root: bool,
    /// The addresses still to be considered; the last one is next.
    pub pending: Seq<Seq<char>>,
    /// The target in progress.
    pub current: Option<TargetView>,
}

/// What a step leaves behind and hands out.
pub struct Outcome {
    pub state: CrawlerView,
    pub visited: Set<Seq<char>>,
    pub messages: Seq<MessageView>,
    pub action: ActionView,
}

/// The part of a content type that marks a text.
pub open spec fn text_marker() -> Seq<char> {
    "text/"@
}

/// The stack after the links of a page were put on it: the first link of
/// the page ends up on top.
pub open spec fn stacked(pending: Seq<Seq<char>>, links: Seq<Seq<char>>) -> Seq<Seq<char>> {
    pending + Seq::new(links.len(), |i: int| links[links.len() - 1 - i])
}

/// A forced-browsing session runs on a target when there is a wordlist and
/// the brute mode is on, or the fuzz mode, which is the brute mode on a seed
/// that holds the marker.
pub open spec fn wants_force_browse(settings: SettingsView) -> bool {
    (settings.flags@.brute || settings.flags@.fuzz) && settings.wordlist is Some
}

/// A link is followed when the scope rule lets its address through and the
/// address is not in the visited set. Whoever follows it puts the address
/// into the set in the same step, so of all who share the set only one does.
pub open spec fn may_follow(pre: CrawlerView, visited: Set<Seq<char>>, url: Seq<char>) -> bool {
    in_scope(pre.settings.scoped, pre.scoped_domains, url) && !visited.contains(url)
}

/// The event does not fit the phase: nothing changes.
pub open spec fn rejected(pre: CrawlerView, visited: Set<Seq<char>>) -> Outcome {
    Outcome { state: pre, visited, messages: Seq::empty(), action: ActionView::Rejected }
}

/// Discovery on the current target: a HEAD where the crawl mode is on,
/// nothing otherwise.
pub open spec fn discover(
    pre: CrawlerView,
    visited: Set<Seq<char>>,
    said: Seq<MessageView>,
) -> Outcome {
    match pre.current {
        Some(current) if pre.settings.flags@.crawl => Outcome {
            state: CrawlerView { phase: Phase::AwaitHead, ..pre },
            visited,
            messages: said,
            action: ActionView::Head { url: current.url },
        },
        _ => Outcome {
            state: CrawlerView { phase: Phase::Ready, current: None, at_root: false, ..pre },
            visited,
            messages: said,
            action: ActionView::Proceed,
        },
    }
}

/// A new target of which it is known whether its address parses again as
/// a base: its record is reported, then forced browsing starts where it is
/// wanted and the address can be a base, discovery otherwise.
pub open spec fn taken_up(
    pre: CrawlerView,
    visited: Set<Seq<char>>,
    url: Seq<char>,
    is_base: bool,
    id: u128,
    instant: i64,
    said: Seq<MessageView>,
) -> Outcome {
    let record = unrequested(id, url, instant);
    let found = said.push(about(ConsoleMessageType::Result, record));
    if wants_force_browse(pre.settings) && is_base {
        Outcome {
            state: CrawlerView { phase: Phase::Probing, current: Some(record), ..pre },
            visited,
            messages: found.push(
                session_start(pre.settings.wordlist->Some_0.len() as u64, record),
            ),
            action: ActionView::ForceBrowse { base: record },
        }
    } else {
        discover(CrawlerView { current: Some(record), ..pre }, visited, found)
    }
}

/// A new target: taken up with what the parser makes of its address.
pub open spec fn enter(
    pre: CrawlerView,
    visited: Set<Seq<char>>,
    url: Seq<char>,
    id: u128,
    instant: i64,
    said: Seq<MessageView>,
) -> Outcome {
    taken_up(pre, visited, url, parsed_url(url) is Ok, id, instant, said)
}

/// The current target is left, and the stack is worked off until an address
/// is followed: an address that does not parse, that is out of scope or that
/// is in the visited set is dropped without a word. The address that is
/// followed is put into the visited set as it is taken up: the test and the
/// insertion are one step.
pub open spec fn advance(
    pre: CrawlerView,
    visited: Set<Seq<char>>,
    id: u128,
    instant: i64,
    said: Seq<MessageView>,
) -> Outcome
    decreases pre.pending.len(),
{
    let left = CrawlerView { current: None, at_root: false, ..pre };
    if pre.pending.len() == 0 {
        Outcome {
            state: CrawlerView { phase: Phase::Done, ..left },
            visited,
            messages: said,
            action: ActionView::Finished,
        }
    } else {
        let rest = CrawlerView { pending: pre.pending.drop_last(), ..left };
        match parsed_url(pre.pending.last()) {
            Ok(url) => if may_follow(pre, visited, url) {
                enter(rest, visited.insert(url), url, id, instant, said)
            } else {
                advance(rest, visited, id, instant, said)
            },
            Err(_) => advance(rest, visited, id, instant, said),
        }
    }
}

/// One step of a crawler: what the event does to it in its phase. `id` and
/// `instant` are the identity and the time of the record that the step may make.
pub open spec fn step_model(
    pre: CrawlerView,
    event: EventView,
    visited: Set<Seq<char>>,
    id: u128,
    instant: i64,
) -> Outcome {
    match (pre.phase, event) {
        (Phase::Idle, EventView::Continue) => match parsed_url(pre.target) {
            Ok(url) => enter(pre, visited, url, id, instant, Seq::empty()),
            Err(reason) => Outcome {
                state: CrawlerView { phase: Phase::Aborted, ..pre },
                visited,
                messages: seq![aborted(pre.target, reason)],
                action: ActionView::Aborted,
            },
        },
        (Phase::Ready, EventView::Continue) => advance(pre, visited, id, instant, Seq::empty()),
        (Phase::Probing, EventView::ForceBrowseDone) => discover(pre, visited, Seq::empty()),
        (Phase::AwaitHead, EventView::Head { response }) => match (pre.current, response) {
            (Some(current), Some(answer)) => {
                let noted = visited.insert(current.url);
                let said = seq![
                    about(
                        ConsoleMessageType::Result,
                        answered(current, answer, Method::Head, instant),
                    ),
                ];
                if has_substring(answer.content_type, text_marker()) {
                    Outcome {
                        state: CrawlerView { phase: Phase::AwaitBody, ..pre },
                        visited: noted,
                        messages: said,
                        action: ActionView::Get { url: current.url },
                    }
                } else {
                    advance(pre, noted, id, instant, said)
                }
            },
            (Some(_), None) => advance(pre, visited, id, instant, Seq::empty()),
            (None, _) => rejected(pre, visited),
        },
        (Phase::AwaitBody, EventView::Body { text }) => match (pre.current, text) {
            (Some(current), Some(body)) => advance(
                CrawlerView { pending: stacked(pre.pending, page_links(current.url, body)), ..pre },
                visited,
                id,
                instant,
                Seq::empty(),
            ),
            (Some(_), None) => advance(pre, visited, id, instant, Seq::empty()),
            (None, _) => rejected(pre, visited),
        },
        _ => rejected(pre, visited),
    }
}

/// What a step hands out: the messages for the observer, in order, and what
/// to do next.
pub struct StepOutput {
    pub messages: Vec<ConsoleMessage>,
    pub action: CrawlAction,
}

/// The crawler of one seed host.
pub struct RinzlerCrawler {
    target: String,
    settings: RinzlerSettings,
    scoped_domains: Vec<String>,
    phase: Phase,
    at_root: bool,
    pending: Vec<String>,
    current: Option<CrawlTarget>,
}

impl View for RinzlerCrawler {
    type V = CrawlerView;

    closed spec fn view(&self) -> CrawlerView {
        CrawlerView {
            target: self.target@,
            settings: self.settings@,
            scoped_domains: self.scoped_domains.deep_view(),
            phase: self.phase,
            at_root: self.at_root,
            pending: self.pending.deep_view(),
            current: match self.current {
                Some(target) => Some(target@),
                None => None,
            },
        }
    }
}

/// A crawler, the visited set and the output of a step, taken together.
pub open spec fn outcome_of(
    crawler: RinzlerCrawler,
    visited: VisitedSet,
    output: StepOutput,
) -> Outcome {
    Outcome {
        state: crawler@,
        visited: visited@,
        messages: views_of(output.messages@),
        action: output.action@,
    }
}

impl RinzlerCrawler {
    /// A crawler for the seed `target`, which has not started.
    pub fn new(target: String, settings: RinzlerSettings, scoped_domains: Vec<String>) -> (crawler:
        RinzlerCrawler)
        ensures
            crawler@ == (CrawlerView {
                target: target@,
                settings: settings@,
                scoped_domains: scoped_domains.deep_view(),
                phase: Phase::Idle,
                at_root: true,
                pending: Seq::empty(),
                current: None,
            }),
            in_order(crawler@),
    {
        let pending: Vec<String> = Vec::new();
        assert(pending.deep_view() =~= Seq::<Seq<char>>::empty());
        RinzlerCrawler {
            target,
            settings,
            scoped_domains,
            phase: Phase::Idle,
            at_root: true,
            pending,
            current: None,
        }
    }

    /// Where the crawler stands.
    pub fn phase(&self) -> (phase: Phase)
        ensures
            phase == self@.phase,
    {
        self.phase
    }

    /// The status filter of the crawler's configuration.
    pub fn is_allowed(&self, code: u16) -> (allow: bool)
        ensures
            allow == status_allowed(
                self@.settings.status_include,
                self@.settings.status_exclude,
                code,
            ),
    {
        allows(&self.settings.status_include, &self.settings.status_exclude, code)
    }

    /// What the crawl tells the dispatcher: that it finished, once every
    /// target has been dealt with; nothing before that, and nothing ever
    /// after the seed turned out to be no address.
    pub fn finish(&self) -> (signal: Option<ControllerMessage>)
        ensures
            match signal {
                Some(message) => self@.phase == Phase::Done && message@
                    == ControllerMessage::finished_view(),
                None => self@.phase != Phase::Done,
            },
    {
        match self.phase {
            Phase::Done => Some(ControllerMessage::finished()),
            _ => None,
        }
    }

    /// Decides discovery for the target in progress: a HEAD where the crawl
    /// mode is on, nothing otherwise. `said` is what the step has said so far.
    pub fn discover(&mut self, visited: &VisitedSet, said: Vec<ConsoleMessage>) -> (output:
        StepOutput)
        ensures
            outcome_of(*final(self), *visited, output) == discover(
                old(self)@,
                visited@,
                views_of(said@),
            ),
    {
        if self.settings.flags.contains(Flags::CRAWL) {
            match &self.current {
                Some(current) => {
                    let url = current.url.clone();
                    self.phase = Phase::AwaitHead;
                    return StepOutput { messages: said, action: CrawlAction::Head { url } };
                },
                None => {},
            }
        }
        self.phase = Phase::Ready;
        self.current = None;
        self.at_root = false;
        StepOutput { messages: said, action: CrawlAction::Proceed }
    }

    /// Takes up a new target, of which the caller knows whether its address
    /// parses again as a base: reports its record, then starts forced browsing
    /// or decides discovery. The visited set is not touched here: a step puts
    /// the address of a link into the set before it takes the link up.
    pub fn take_up(
        &mut self,
        visited: &VisitedSet,
        url: String,
        is_base: bool,
        id: u128,
        instant: i64,
        said: Vec<ConsoleMessage>,
    ) -> (output: StepOutput)
        ensures
            outcome_of(*final(self), *visited, output) == taken_up(
                old(self)@,
                visited@,
                url@,
                is_base,
                id,
                instant,
                views_of(said@),
            ),
    {
        let mut messages = said;
        let wanted = (self.settings.flags.contains(Flags::BRUTE) || self.settings.flags.contains(
            Flags::FUZZ,
        )) && self.settings.wordlist.is_some() && is_base;
        let record = CrawlTarget::observed(id, url, instant);
        messages.push(ConsoleMessage::target_found(&record));
        assert(views_of(messages@) =~= views_of(said@).push(
            about(ConsoleMessageType::Result, record@),
        ));
        if wanted {
            let count = match &self.settings.wordlist {
                Some(words) => words.len(),
                None => 0,
            };
            let ghost found = views_of(messages@);
            messages.push(ConsoleMessage::force_browse_start(count, &record));
            assert(views_of(messages@) =~= found.push(session_start(count as u64, record@)));
            let base = record.clone();
            self.phase = Phase::Probing;
            self.current = Some(record);
            StepOutput { messages, action: CrawlAction::ForceBrowse { base } }
        } else {
            self.current = Some(record);
            self.discover(visited, messages)
        }
    }

    fn enter(
        &mut self,
        visited: &VisitedSet,
        url: String,
        id: u128,
        instant: i64,
        said: Vec<ConsoleMessage>,
    ) -> (output: StepOutput)
        ensures
            outcome_of(*final(self), *visited, output) == enter(
                old(self)@,
                visited@,
                url@,
                id,
                instant,
                views_of(said@),
            ),
    {
        let is_base = normalize(url.as_str()).is_ok();
        self.take_up(visited, url, is_base, id, instant, said)
    }

    fn advance(
        &mut self,
        visited: &mut VisitedSet,
        id: u128,
        instant: i64,
        said: Vec<ConsoleMessage>,
    ) -> (output: StepOutput)
        ensures
            outcome_of(*final(self), *final(visited), output) == advance(
                old(self)@,
                old(visited)@,
                id,
                instant,
                views_of(said@),
            ),
    {
        let ghost start = self@;
        let ghost shared = visited@;
        self.current = None;
        self.at_root = false;
        loop
            invariant
                start == old(self)@,
                shared == old(visited)@,
                visited@ == shared,
                self@.current is None,
                !self@.at_root,
                advance(self@, shared, id, instant, views_of(said@)) == advance(
                    start,
                    shared,
                    id,
                    instant,
                    views_of(said@),
                ),
            decreases self.pending.len(),
        {
            let ghost before = self@;
            match self.pending.pop() {
                None => {
                    assert(before.pending.len() == 0);
                    self.phase = Phase::Done;
                    assert(self@ == (CrawlerView { phase: Phase::Done, ..before }));
                    return StepOutput { messages: said, action: CrawlAction::Finished };
                },
                Some(candidate) => {
                    assert(self.pending.deep_view() =~= before.pending.drop_last());
                    assert(candidate@ == before.pending.last());
                    assert(self@ == (CrawlerView {
                        pending: before.pending.drop_last(),
                        ..before
                    }));
                    assert(before == (CrawlerView { current: None, at_root: false, ..before }));
                    match normalize(candidate.as_str()) {
                        Ok(url) => {
                            if is_in_scope(
                                self.settings.scoped,
                                &self.scoped_domains,
                                url.as_str(),
                            ) {
                                if visited.insert(&url) {
                                    return self.enter(visited, url, id, instant, said);
                                }
                                assert(visited@ =~= shared);
                            }
                        },
                        Err(_) => {},
                    }
                },
            }
        }
    }

    /// One step of the crawler, with the identity and the instant of the
    /// record that the step may make: exactly the step of the model. A
    /// crawler that is in order stays in order.
    pub fn step_at(
        &mut self,
        event: CrawlEvent,
        visited: &mut VisitedSet,
        id: u128,
        instant: i64,
    ) -> (output: StepOutput)
        ensures
            outcome_of(*final(self), *final(visited), output) == step_model(
                old(self)@,
                event@,
                old(visited)@,
                id,
                instant,
            ),
            output.messages@.len() == step_model(
                old(self)@,
                event@,
                old(visited)@,
                id,
                instant,
            ).messages.len(),
            in_order(old(self)@) ==> in_order(final(self)@),
    {
        proof {
            if in_order(self@) {
                lemma_step_rules(self@, event@, visited@, id, instant);
            }
        }
        let nothing: Vec<ConsoleMessage> = Vec::new();
        assert(views_of(nothing@) =~= Seq::<MessageView>::empty());
        match (self.phase, event) {
            (Phase::Idle, CrawlEvent::Continue) => {
                match normalize(self.target.as_str()) {
                    Ok(url) => self.enter(visited, url, id, instant, nothing),
                    Err(error) => {
                        let mut messages = nothing;
                        messages.push(
                            ConsoleMessage::abort(self.target.as_str(), error.reason.as_str()),
                        );
                        assert(views_of(messages@) =~= seq![
                            aborted(self.target@, error.reason@),
                        ]);
                        self.phase = Phase::Aborted;
                        StepOutput { messages, action: CrawlAction::Aborted }
                    },
                }
            },
            (Phase::Ready, CrawlEvent::Continue) => self.advance(visited, id, instant, nothing),
            (Phase::Probing, CrawlEvent::ForceBrowseDone) => self.discover(visited, nothing),
            (Phase::AwaitHead, CrawlEvent::Head { response }) => {
                if self.current.is_none() {
                    return StepOutput { messages: nothing, action: CrawlAction::Rejected };
                }
                match response {
                    Some(answer) => {
                        let requested = match &self.current {
                            Some(current) => current.clone(),
                            None => CrawlTarget::observed(id, String::new(), instant),
                        };
                        visited.insert(&requested.url);
                        let mut hit = requested.clone();
                        hit.record_response(&answer, Method::Head, instant);
                        let mut messages = nothing;
                        messages.push(ConsoleMessage::target_found(&hit));
                        assert(views_of(messages@) =~= seq![
                            about(ConsoleMessageType::Result, hit@),
                        ]);
                        if contains_text(answer.content_type.as_str(), "text/") {
                            self.phase = Phase::AwaitBody;
                            StepOutput {
                                messages,
                                action: CrawlAction::Get { url: requested.url },
                            }
                        } else {
                            self.advance(visited, id, instant, messages)
                        }
                    },
                    None => self.advance(visited, id, instant, nothing),
                }
            },
            (Phase::AwaitBody, CrawlEvent::Body { text }) => {
                if self.current.is_none() {
                    return StepOutput { messages: nothing, action: CrawlAction::Rejected };
                }
                match text {
                    Some(body) => {
                        let base = match &self.current {
                            Some(current) => current.url.clone(),
                            None => String::new(),
                        };
                        let links = discover_links(base.as_str(), body.as_str());
                        self.stack(&links);
                        self.advance(visited, id, instant, nothing)
                    },
                    None => self.advance(visited, id, instant, nothing),
                }
            },
            _ => StepOutput { messages: nothing, action: CrawlAction::Rejected },
        }
    }

    /// Puts the links of a page on the stack, the first link on top.
    fn stack(&mut self, links: &Vec<String>)
        ensures
            final(self)@ == (CrawlerView {
                pending: stacked(old(self)@.pending, links.deep_view()),
                ..old(self)@
            }),
    {
        let ghost before = self.pending.deep_view();
        let mut k: usize = links.len();
        assert(self.pending.deep_view() =~= before + Seq::new(
            0,
            |i: int| links.deep_view()[links.len() - 1 - i],
        ));
        while k > 0
            invariant
                k <= links.len(),
                self@ == (CrawlerView { pending: self.pending.deep_view(), ..old(self)@ }),
                self.pending.deep_view() == before + Seq::new(
                    (links.len() - k) as nat,
                    |i: int| links.deep_view()[links.len() - 1 - i],
                ),
            decreases k,
        {
            let ghost so_far = self.pending.deep_view();
            k -= 1;
            self.pending.push(links[k].clone());
            assert(self.pending.deep_view() =~= so_far.push(links@[k as int]@));
            assert(self.pending.deep_view() =~= before + Seq::new(
                (links.len() - k) as nat,
                |i: int| links.deep_view()[links.len() - 1 - i],
            ));
        }
    }

    /// One step of the crawler: what the event does to it in its phase. The
    /// step is the step of the model for a new random identity and the
    /// present instant, whatever they are.
    pub fn step(&mut self, event: CrawlEvent, visited: &mut VisitedSet) -> (output: StepOutput)
        ensures
            exists|id: u128, instant: i64|
                is_random_id(id) && outcome_of(*final(self), *final(visited), output)
                    == #[trigger] step_model(old(self)@, event@, old(visited)@, id, instant),
            in_order(old(self)@) ==> in_order(final(self)@),
    {
        let id = fresh_id();
        let instant = now_millis();
        self.step_at(event, visited, id, instant)
    }
}

} // verus!
