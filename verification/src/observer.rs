//! The observer's decisions: what each message of a run means for the
//! display. Drawing is the caller's part; which bars and spinners are open
//! is kept here.

use crate::message::{ConsoleMessage, ConsoleMessageType, MessageView};
use crate::target::{CrawlTarget, TargetView};
use std::collections::HashSet;
use vstd::prelude::*;

verus! {

broadcast use vstd::std_specs::hash::group_hash_axioms;

/// What the display is to do for one message.
pub enum Rendering {
    /// Nothing.
    Nothing,
    /// Open a progress bar of `total` steps under the identity `id`.
    OpenBar { id: u128, total: u64 },
    /// Advance the bar `id` by one.
    Advance { id: u128 },
    /// Print the record above its bar, and advance the bar by one.
    ReportHit { hit: CrawlTarget },
    /// Show `candidate` as the current work of the bar `id`.
    Annotate { id: u128, candidate: String },
    /// Open a spinner for a target that is being requested.
    OpenSpinner { target: CrawlTarget },
    /// End the spinner or bar of the target with its record.
    Resolve { target: CrawlTarget },
    /// Take the spinner or bar `id` away without a word.
    Close { id: u128 },
    /// Print the record on a line of its own.
    PrintLine { target: CrawlTarget },
    /// Only advance what is open.
    Tick,
    /// Show the outcome of the run, and stop.
    Finish { outcome: Result<String, String> },
    /// Show why the run was aborted, where a reason was given, and stop.
    Abort { reason: Option<String> },
}

/// A rendering as plain mathematical values.
pub enum RenderingView {
    Nothing,
    OpenBar { id: u128, total: u64 },
    Advance { id: u128 },
    ReportHit { hit: TargetView },
    Annotate { id: u128, candidate: Seq<char> },
    OpenSpinner { target: TargetView },
    Resolve { target: TargetView },
    Close { id: u128 },
    PrintLine { target: TargetView },
    Tick,
    Finish { outcome: Result<Seq<char>, Seq<char>> },
    Abort { reason: Option<Seq<char>> },
}

impl View for Rendering {
    type V = RenderingView;

    open spec fn view(&self) -> RenderingView {
        match self {
            Rendering::Nothing => RenderingView::Nothing,
            Rendering::OpenBar { id, total } => RenderingView::OpenBar { id: *id, total: *total },
            Rendering::Advance { id } => RenderingView::Advance { id: *id },
            Rendering::ReportHit { hit } => RenderingView::ReportHit { hit: hit@ },
            Rendering::Annotate { id, candidate } => RenderingView::Annotate {
                id: *id,
                candidate: candidate@,
            },
            Rendering::OpenSpinner { target } => RenderingView::OpenSpinner { target: target@ },
            Rendering::Resolve { target } => RenderingView::Resolve { target: target@ },
            Rendering::Close { id } => RenderingView::Close { id: *id },
            Rendering::PrintLine { target } => RenderingView::PrintLine { target: target@ },
            Rendering::Tick => RenderingView::Tick,
            Rendering::Finish { outcome } => RenderingView::Finish {
                outcome: match outcome {
                    Ok(text) => Ok(text@),
                    Err(text) => Err(text@),
                },
            },
            Rendering::Abort { reason } => RenderingView::Abort {
                reason: match reason {
                    Some(text) => Some(text@),
                    None => None,
                },
            },
        }
    }
}

impl RenderingView {
    /// After this rendering, everything that is open advances by one.
    pub open spec fn ticks(self) -> bool {
        self is OpenSpinner || self is Resolve || self is Close || self is PrintLine
            || self is Tick
    }

    /// After this rendering the observer stops.
    pub open spec fn stops(self) -> bool {
        self is Finish || self is Abort
    }
}

impl Rendering {
    /// Whether everything that is open advances by one after this rendering.
    pub fn ticks(&self) -> (yes: bool)
        ensures
            yes == self@.ticks(),
    {
        match self {
            Rendering::OpenSpinner { .. } => true,
            Rendering::Resolve { .. } => true,
            Rendering::Close { .. } => true,
            Rendering::PrintLine { .. } => true,
            Rendering::Tick => true,
            _ => false,
        }
    }

    /// Whether the observer stops after this rendering.
    pub fn stops(&self) -> (yes: bool)
        ensures
            yes == self@.stops(),
    {
        match self {
            Rendering::Finish { .. } => true,
            Rendering::Abort { .. } => true,
            _ => false,
        }
    }
}

/// An observer as plain mathematical values.
pub struct ObserverView {
    /// Records of discovery are not shown.
    pub quiet: bool,
    /// The identities under which a bar or a spinner is open.
    pub ongoing: Set<u128>,
}

/// A message that the observer can take: a message about a bar names a
/// bar that is open, and carries what the display needs.
pub open spec fn accepts(pre: ObserverView, message: MessageView) -> bool {
    match message.message_type {
        ConsoleMessageType::ForceBrowseStart => message.total is Some && message.crawl_target
            is Some,
        ConsoleMessageType::ForceBrowseProgress | ConsoleMessageType::ForceBrowseHit => {
            &&& message.crawl_target is Some
            &&& pre.ongoing.contains(message.crawl_target->Some_0.id)
        },
        ConsoleMessageType::ForceBrowseAttempt => {
            &&& message.original_target is Some
            &&& pre.ongoing.contains(message.original_target->Some_0.id)
            &&& message.crawl_target is Some
        },
        _ => true,
    }
}

/// What a record of discovery means for the display: a record whose
/// identity is open ends its spinner (with the record, where the request was
/// answered); a new record opens a spinner where it was not requested yet,
/// and is printed where it was.
pub open spec fn discovery(pre: ObserverView, target: TargetView) -> (ObserverView, RenderingView) {
    if pre.ongoing.contains(target.id) {
        (
            ObserverView { ongoing: pre.ongoing.remove(target.id), ..pre },
            if target.status_code is Some {
                RenderingView::Resolve { target }
            } else {
                RenderingView::Close { id: target.id }
            },
        )
    } else if target.status_code is None {
        (
            ObserverView { ongoing: pre.ongoing.insert(target.id), ..pre },
            RenderingView::OpenSpinner { target },
        )
    } else {
        (pre, RenderingView::PrintLine { target })
    }
}

/// What a message means for the display, and which bars and spinners are
/// open after it.
pub open spec fn observe_model(pre: ObserverView, message: MessageView) -> (
    ObserverView,
    RenderingView,
) {
    match message.message_type {
        ConsoleMessageType::NONE => (pre, RenderingView::Nothing),
        ConsoleMessageType::ForceBrowseStart => (
            ObserverView {
                ongoing: pre.ongoing.insert(message.crawl_target->Some_0.id),
                ..pre
            },
            RenderingView::OpenBar {
                id: message.crawl_target->Some_0.id,
                total: message.total->Some_0,
            },
        ),
        ConsoleMessageType::ForceBrowseProgress => (
            pre,
            RenderingView::Advance { id: message.crawl_target->Some_0.id },
        ),
        ConsoleMessageType::ForceBrowseHit => (
            pre,
            RenderingView::ReportHit { hit: message.crawl_target->Some_0 },
        ),
        ConsoleMessageType::ForceBrowseAttempt => (
            pre,
            RenderingView::Annotate {
                id: message.original_target->Some_0.id,
                candidate: message.crawl_target->Some_0.url,
            },
        ),
        ConsoleMessageType::Finish => (pre, RenderingView::Finish { outcome: message.data }),
        ConsoleMessageType::Abort => (
            pre,
            RenderingView::Abort {
                reason: match message.data {
                    Ok(_) => None,
                    Err(reason) => Some(reason),
                },
            },
        ),
        ConsoleMessageType::Result => if pre.quiet {
            (pre, RenderingView::Nothing)
        } else {
            match message.crawl_target {
                Some(target) => discovery(pre, target),
                None => (pre, RenderingView::Tick),
            }
        },
    }
}

/// The observer of a run.
pub struct RinzlerConsole {
    quiet: bool,
    ongoing: HashSet<u128>,
}

impl View for RinzlerConsole {
    type V = ObserverView;

    closed spec fn view(&self) -> ObserverView {
        ObserverView { quiet: self.quiet, ongoing: self.ongoing@ }
    }
}

impl RinzlerConsole {
    /// An observer with nothing open.
    pub fn new(quiet: bool) -> (console: RinzlerConsole)
        ensures
            console@ == (ObserverView { quiet, ongoing: Set::empty() }),
    {
        RinzlerConsole { quiet, ongoing: HashSet::new() }
    }

    /// Whether a bar or a spinner is open under `id`.
    pub fn is_open(&self, id: u128) -> (open: bool)
        ensures
            open == self@.ongoing.contains(id),
    {
        self.ongoing.contains(&id)
    }

    /// Whether the observer can take `message`.
    pub fn accepts(&self, message: &ConsoleMessage) -> (fine: bool)
        ensures
            fine == accepts(self@, message@),
    {
        match message.message_type {
            ConsoleMessageType::ForceBrowseStart => message.total.is_some()
                && message.crawl_target.is_some(),
            ConsoleMessageType::ForceBrowseProgress | ConsoleMessageType::ForceBrowseHit => {
                match &message.crawl_target {
                    Some(target) => self.ongoing.contains(&target.id),
                    None => false,
                }
            },
            ConsoleMessageType::ForceBrowseAttempt => {
                match &message.original_target {
                    Some(base) => self.ongoing.contains(&base.id)
                        && message.crawl_target.is_some(),
                    None => false,
                }
            },
            _ => true,
        }
    }

    /// Takes one message: says what the display is to do, and keeps track
    /// of what is open.
    pub fn render(&mut self, message: &ConsoleMessage) -> (rendering: Rendering)
        requires
            accepts(old(self)@, message@),
        ensures
            (final(self)@, rendering@) == observe_model(old(self)@, message@),
    {
        match message.message_type {
            ConsoleMessageType::NONE => Rendering::Nothing,
            ConsoleMessageType::ForceBrowseStart => {
                match (&message.crawl_target, message.total) {
                    (Some(base), Some(total)) => {
                        self.ongoing.insert(base.id);
                        Rendering::OpenBar { id: base.id, total }
                    },
                    _ => Rendering::Nothing,
                }
            },
            ConsoleMessageType::ForceBrowseProgress => {
                match &message.crawl_target {
                    Some(base) => Rendering::Advance { id: base.id },
                    None => Rendering::Nothing,
                }
            },
            ConsoleMessageType::ForceBrowseHit => {
                match &message.crawl_target {
                    Some(hit) => Rendering::ReportHit { hit: hit.clone() },
                    None => Rendering::Nothing,
                }
            },
            ConsoleMessageType::ForceBrowseAttempt => {
                match (&message.original_target, &message.crawl_target) {
                    (Some(base), Some(candidate)) => Rendering::Annotate {
                        id: base.id,
                        candidate: candidate.url.clone(),
                    },
                    _ => Rendering::Nothing,
                }
            },
            ConsoleMessageType::Finish => Rendering::Finish {
                outcome: match &message.data {
                    Ok(text) => Ok(text.clone()),
                    Err(text) => Err(text.clone()),
                },
            },
            ConsoleMessageType::Abort => Rendering::Abort {
                reason: match &message.data {
                    Ok(_) => None,
                    Err(reason) => Some(reason.clone()),
                },
            },
            ConsoleMessageType::Result => {
                if self.quiet {
                    return Rendering::Nothing;
                }
                match &message.crawl_target {
                    Some(target) => {
                        if self.ongoing.contains(&target.id) {
                            self.ongoing.remove(&target.id);
                            if target.status_code.is_some() {
                                Rendering::Resolve { target: target.clone() }
                            } else {
                                Rendering::Close { id: target.id }
                            }
                        } else if target.status_code.is_none() {
                            self.ongoing.insert(target.id);
                            Rendering::OpenSpinner { target: target.clone() }
                        } else {
                            Rendering::PrintLine { target: target.clone() }
                        }
                    },
                    None => Rendering::Tick,
                }
            },
        }
    }
}

} // verus!
