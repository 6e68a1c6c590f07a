//! The dispatcher: it checks the seeds, derives the scoped domains, and
//! gathers the completion signals of the crawls into the outcome of the run.

use crate::config::RinzlerSettings;
use crate::links::{keep_present, present};
use crate::message::{
    aborted, finished, ConsoleMessage, ControllerMessage, ControllerMessageType, SignalView,
};
use crate::web::{domain_name, normalize, parsed_url, url_domain};
use vstd::prelude::*;
use vstd::string::*;

verus! {

/// The text of the outcome of a run without a failure.
pub open spec fn completed_text() -> Seq<char> {
    "Scan Completed"@
}

/// The text of the outcome of a run with a failure.
pub open spec fn failed_text() -> Seq<char> {
    "Scan Failed"@
}

/// The signals views of a list of signals, in order.
pub open spec fn signals_of(signals: Seq<ControllerMessage>) -> Seq<SignalView> {
    Seq::new(signals.len(), |i: int| signals[i]@)
}

/// Some signal reports a failure.
pub open spec fn any_error(signals: Seq<SignalView>) -> bool {
    exists|i: int|
        0 <= i < signals.len() && (#[trigger] signals[i]).message_type
            == ControllerMessageType::ERROR
}

/// The outcome of a run for the signals of all its crawls: completed when
/// none of them reports a failure, failed as soon as one does.
pub open spec fn overall(signals: Seq<SignalView>) -> Result<Seq<char>, Seq<char>> {
    if any_error(signals) {
        Err(failed_text())
    } else {
        Ok(completed_text())
    }
}

/// The view of an outcome.
pub open spec fn outcome_view(outcome: Result<String, String>) -> Result<Seq<char>, Seq<char>> {
    match outcome {
        Ok(text) => Ok(text@),
        Err(text) => Err(text@),
    }
}

/// The outcome of a run depends on which signals came, and how many of
/// each, not on their order: two runs with the same signals in any order end
/// alike. It is completed exactly when no signal reports a failure.
pub proof fn lemma_aggregation(first: Seq<SignalView>, second: Seq<SignalView>)
    requires
        first.to_multiset() == second.to_multiset(),
    ensures
        overall(first) == overall(second),
        overall(first) == Ok::<Seq<char>, Seq<char>>(completed_text()) <==> !any_error(first),
        overall(first) == Err::<Seq<char>, Seq<char>>(failed_text()) <==> any_error(first),
{
    first.to_multiset_ensures();
    second.to_multiset_ensures();
    if any_error(first) {
        let i = choose|i: int|
            0 <= i < first.len() && (#[trigger] first[i]).message_type
                == ControllerMessageType::ERROR;
        assert(first.contains(first[i]));
        assert(second.to_multiset().count(first[i]) > 0);
        assert(second.contains(first[i]));
        let j = choose|j: int| 0 <= j < second.len() && second[j] == first[i];
        assert(second[j].message_type == ControllerMessageType::ERROR);
    }
    if any_error(second) {
        let i = choose|i: int|
            0 <= i < second.len() && (#[trigger] second[i]).message_type
                == ControllerMessageType::ERROR;
        assert(second.contains(second[i]));
        assert(first.to_multiset().count(second[i]) > 0);
        assert(first.contains(second[i]));
        let j = choose|j: int| 0 <= j < first.len() && first[j] == second[i];
        assert(first[j].message_type == ControllerMessageType::ERROR);
    }
}

/// One failure among the signals makes the run fail, wherever it stands and
/// whatever the other crawls report.
pub proof fn lemma_one_error_fails(signals: Seq<SignalView>, at: int)
    requires
        0 <= at < signals.len(),
        signals[at].message_type == ControllerMessageType::ERROR,
    ensures
        overall(signals) == Err::<Seq<char>, Seq<char>>(failed_text()),
{
}

/// The outcome of a run for the signals of all its crawls.
pub fn wait_for_crawlers_to_finish(signals: &Vec<ControllerMessage>) -> (outcome: Result<
    String,
    String,
>)
    ensures
        outcome_view(outcome) == overall(signals_of(signals@)),
{
    let mut i: usize = 0;
    while i < signals.len()
        invariant
            i <= signals.len(),
            forall|k: int|
                0 <= k < i ==> (#[trigger] signals_of(signals@)[k]).message_type
                    != ControllerMessageType::ERROR,
        decreases signals.len() - i,
    {
        match signals[i].message_type {
            ControllerMessageType::ERROR => {
                assert(signals_of(signals@)[i as int].message_type
                    == ControllerMessageType::ERROR);
                return Err(String::from_str("Scan Failed"));
            },
            ControllerMessageType::FINISHED => {},
        }
        i += 1;
    }
    Ok(String::from_str("Scan Completed"))
}

/// The signals of a run as they come in, against the number of crawls that
/// were started.
pub struct Aggregator {
    expected: usize,
    received: usize,
    failed: bool,
    signals: Ghost<Seq<SignalView>>,
}

/// An aggregator as plain mathematical values: how many signals are
/// awaited in all, and the signals that came, in order.
pub struct AggregatorView {
    pub expected: nat,
    pub signals: Seq<SignalView>,
}

impl View for Aggregator {
    type V = AggregatorView;

    closed spec fn view(&self) -> AggregatorView {
        AggregatorView { expected: self.expected as nat, signals: self.signals@ }
    }
}

impl Aggregator {
    /// The counters agree with the signals that came, and no more signals
    /// came than are awaited.
    pub closed spec fn wf(&self) -> bool {
        &&& self.received == self.signals@.len()
        &&& self.received <= self.expected
        &&& self.failed == any_error(self.signals@)
    }

    /// An aggregator that awaits `expected` signals.
    pub fn new(expected: usize) -> (aggregator: Aggregator)
        ensures
            aggregator.wf(),
            aggregator@ == (AggregatorView { expected: expected as nat, signals: Seq::empty() }),
    {
        Aggregator { expected, received: 0, failed: false, signals: Ghost(Seq::empty()) }
    }

    /// Whether every awaited signal has come.
    pub fn is_complete(&self) -> (complete: bool)
        requires
            self.wf(),
        ensures
            complete == (self@.signals.len() == self@.expected),
    {
        self.received == self.expected
    }

    /// Takes one signal in. A signal that comes after all awaited signals
    /// have come is turned away and changes nothing.
    pub fn record(&mut self, signal: &ControllerMessage) -> (taken: bool)
        requires
            old(self).wf(),
        ensures
            final(self).wf(),
            taken == (old(self)@.signals.len() < old(self)@.expected),
            final(self)@ == if taken {
                AggregatorView { signals: old(self)@.signals.push(signal@), ..old(self)@ }
            } else {
                old(self)@
            },
    {
        if self.received == self.expected {
            return false;
        }
        let ghost before = self.signals@;
        self.received = self.received + 1;
        match signal.message_type {
            ControllerMessageType::ERROR => {
                self.failed = true;
            },
            ControllerMessageType::FINISHED => {},
        }
        proof {
            self.signals@ = before.push(signal@);
            let after = before.push(signal@);
            if any_error(before) {
                let i = choose|i: int|
                    0 <= i < before.len() && (#[trigger] before[i]).message_type
                        == ControllerMessageType::ERROR;
                assert(after[i].message_type == ControllerMessageType::ERROR);
            }
            if signal.message_type == ControllerMessageType::ERROR {
                assert(after[before.len() as int].message_type == ControllerMessageType::ERROR);
            }
            if any_error(after) {
                let i = choose|i: int|
                    0 <= i < after.len() && (#[trigger] after[i]).message_type
                        == ControllerMessageType::ERROR;
                if i < before.len() {
                    assert(before[i].message_type == ControllerMessageType::ERROR);
                }
            }
        }
        true
    }

    /// The outcome of the run, once every awaited signal has come; nothing
    /// before that, even where a failure has been reported.
    pub fn outcome(&self) -> (outcome: Option<Result<String, String>>)
        requires
            self.wf(),
        ensures
            match outcome {
                Some(result) => self@.signals.len() == self@.expected && outcome_view(result)
                    == overall(self@.signals),
                None => self@.signals.len() != self@.expected,
            },
    {
        if self.received != self.expected {
            None
        } else if self.failed {
            Some(Err(String::from_str("Scan Failed")))
        } else {
            Some(Ok(String::from_str("Scan Completed")))
        }
    }
}

/// The domain names of the seeds, in order: a seed whose host is no domain
/// name adds nothing.
pub open spec fn seed_domains(hosts: Seq<Seq<char>>) -> Seq<Seq<char>> {
    present(Seq::new(hosts.len(), |i: int| url_domain(hosts[i])))
}

/// What the dispatcher does with the seeds.
pub enum Dispatch {
    /// A seed is no address: the run ends at once with this message, and no
    /// crawl is started.
    Abort { message: ConsoleMessage },
    /// Every seed is an address: one crawl per seed, all of them with these
    /// scoped domains.
    Run { scoped_domains: Vec<String> },
}

impl Dispatch {
    /// The outcome of the run as far as the dispatch settles it: an aborted
    /// run has failed; a run that starts has no outcome yet.
    pub fn outcome(&self) -> (outcome: Option<Result<String, String>>)
        ensures
            match outcome {
                Some(result) => self is Abort && outcome_view(result) == Err::<
                    Seq<char>,
                    Seq<char>,
                >(failed_text()),
                None => self is Run,
            },
    {
        match self {
            Dispatch::Abort { .. } => Some(Err(String::from_str("Scan Failed"))),
            Dispatch::Run { .. } => None,
        }
    }
}

/// The dispatcher of a run.
pub struct RinzlerApplication {
    pub settings: RinzlerSettings,
}

impl RinzlerApplication {
    /// The dispatcher of a run with this configuration.
    pub fn from_settings(settings: RinzlerSettings) -> (application: RinzlerApplication)
        ensures
            application.settings == settings,
    {
        RinzlerApplication { settings }
    }

    /// Checks every seed and derives the scoped domains. The first seed that
    /// is no address aborts the run, with the parser's reason in the message.
    pub fn dispatch(&self) -> (plan: Dispatch)
        ensures
            match plan {
                Dispatch::Abort { message } => exists|bad: int|
                    {
                        &&& 0 <= bad < self.settings@.hosts.len()
                        &&& #[trigger] parsed_url(self.settings@.hosts[bad]) is Err
                        &&& message@ == aborted(
                            self.settings@.hosts[bad],
                            parsed_url(self.settings@.hosts[bad])->Err_0,
                        )
                        &&& forall|k: int|
                            0 <= k < bad ==> #[trigger] parsed_url(self.settings@.hosts[k]) is Ok
                    },
                Dispatch::Run { scoped_domains } => {
                    &&& forall|k: int|
                        0 <= k < self.settings@.hosts.len() ==> #[trigger] parsed_url(
                            self.settings@.hosts[k],
                        ) is Ok
                    &&& scoped_domains.deep_view() == seed_domains(self.settings@.hosts)
                },
            },
    {
        let hosts = &self.settings.hosts;
        let mut i: usize = 0;
        while i < hosts.len()
            invariant
                i <= hosts.len(),
                hosts == &self.settings.hosts,
                forall|k: int| 0 <= k < i ==> #[trigger] parsed_url(hosts.deep_view()[k]) is Ok,
            decreases hosts.len() - i,
        {
            assert(hosts.deep_view()[i as int] == hosts@[i as int]@);
            match normalize(hosts[i].as_str()) {
                Ok(_) => {},
                Err(error) => {
                    let message = ConsoleMessage::abort(hosts[i].as_str(), error.reason.as_str());
                    assert(parsed_url(self.settings@.hosts[i as int]) is Err);
                    return Dispatch::Abort { message };
                },
            }
            i += 1;
        }
        let mut names: Vec<Option<String>> = Vec::new();
        let mut j: usize = 0;
        while j < hosts.len()
            invariant
                j <= hosts.len(),
                names.len() == j,
                forall|k: int|
                    0 <= k < j ==> #[trigger] names@[k].deep_view() == url_domain(hosts@[k]@),
            decreases hosts.len() - j,
        {
            names.push(domain_name(hosts[j].as_str()));
            j += 1;
        }
        assert(names.deep_view() =~= Seq::new(
            hosts.deep_view().len(),
            |i: int| url_domain(hosts.deep_view()[i]),
        ));
        Dispatch::Run { scoped_domains: keep_present(&names) }
    }

    /// The message that ends the run, for the signals of all its crawls.
    pub fn conclude(signals: &Vec<ControllerMessage>) -> (message: ConsoleMessage)
        ensures
            message@ == finished(overall(signals_of(signals@))),
    {
        ConsoleMessage::finish(wait_for_crawlers_to_finish(signals))
    }
}

} // verus!
