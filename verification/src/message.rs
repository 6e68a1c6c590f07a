//! The messages of a run: what the workers tell the observer, and what each
//! top-level crawl tells the dispatcher when it ends.

use crate::target::{CrawlTarget, TargetView};
use vstd::prelude::*;
use vstd::string::*;

verus! {

/// The kinds of message to the observer.
#[derive(Clone, Copy, Debug, PartialEq, Eq, Structural)]
pub enum ConsoleMessageType {
    ForceBrowseStart,
    ForceBrowseProgress,
    ForceBrowseHit,
    ForceBrowseAttempt,
    Finish,
    Abort,
    Result,
    NONE,
}

/// A message to the observer.
pub struct ConsoleMessage {
    pub message_type: ConsoleMessageType,
    pub data: Result<String, String>,
    pub original_target: Option<CrawlTarget>,
    pub crawl_target: Option<CrawlTarget>,
    pub total: Option<u64>,
}

/// A message to the observer as plain mathematical values.
pub struct MessageView {
    pub message_type: ConsoleMessageType,
    pub data: Result<Seq<char>, Seq<char>>,
    pub original_target: Option<TargetView>,
    pub crawl_target: Option<TargetView>,
    pub total: Option<u64>,
}

impl View for ConsoleMessage {
    type V = MessageView;

    open spec fn view(&self) -> MessageView {
        MessageView {
            message_type: self.message_type,
            data: match self.data {
                Ok(text) => Ok(text@),
                Err(text) => Err(text@),
            },
            original_target: match self.original_target {
                Some(target) => Some(target@),
                None => None,
            },
            crawl_target: match self.crawl_target {
                Some(target) => Some(target@),
                None => None,
            },
            total: self.total,
        }
    }
}

/// The views of a list of messages, in order.
pub open spec fn views_of(messages: Seq<ConsoleMessage>) -> Seq<MessageView> {
    Seq::new(messages.len(), |i: int| messages[i]@)
}

/// A message of the given kind about one target, with no text.
pub open spec fn about(kind: ConsoleMessageType, target: TargetView) -> MessageView {
    MessageView {
        message_type: kind,
        data: Ok(Seq::<char>::empty()),
        original_target: None,
        crawl_target: Some(target),
        total: None,
    }
}

/// The start of a forced-browsing session on `base` with `count` words.
pub open spec fn session_start(count: u64, base: TargetView) -> MessageView {
    MessageView { total: Some(count), ..about(ConsoleMessageType::ForceBrowseStart, base) }
}

/// One probe of a forced-browsing session: `candidate` is tried for `base`.
pub open spec fn attempt(candidate: TargetView, base: TargetView) -> MessageView {
    MessageView {
        original_target: Some(base),
        ..about(ConsoleMessageType::ForceBrowseAttempt, candidate)
    }
}

/// The text of the message that ends a run on a target that is no address.
pub open spec fn abort_text(target: Seq<char>, reason: Seq<char>) -> Seq<char> {
    "Couldn't parse '"@ + target + "' as a URL: "@ + reason
}

/// The message that ends a run on a target that is no address.
pub open spec fn aborted(target: Seq<char>, reason: Seq<char>) -> MessageView {
    MessageView {
        message_type: ConsoleMessageType::Abort,
        data: Err(abort_text(target, reason)),
        original_target: None,
        crawl_target: None,
        total: None,
    }
}

/// The message that ends a run with its outcome.
pub open spec fn finished(outcome: Result<Seq<char>, Seq<char>>) -> MessageView {
    MessageView {
        message_type: ConsoleMessageType::Finish,
        data: outcome,
        original_target: None,
        crawl_target: None,
        total: None,
    }
}

impl Clone for ConsoleMessage {
    /// The copy of a message keeps everything but the kind, which is `NONE`.
    fn clone(&self) -> (copy: Self)
        ensures
            copy@ == (MessageView { message_type: ConsoleMessageType::NONE, ..self@ }),
    {
        ConsoleMessage {
            message_type: ConsoleMessageType::NONE,
            data: match &self.data {
                Ok(text) => Ok(text.clone()),
                Err(text) => Err(text.clone()),
            },
            original_target: match &self.original_target {
                Some(target) => Some(target.clone()),
                None => None,
            },
            crawl_target: match &self.crawl_target {
                Some(target) => Some(target.clone()),
                None => None,
            },
            total: self.total,
        }
    }
}

impl ConsoleMessage {
    /// A copy of the message that keeps its kind.
    pub fn duplicate(&self) -> (copy: ConsoleMessage)
        ensures
            copy@ == self@,
    {
        let mut copy = self.clone();
        copy.message_type = self.message_type;
        copy
    }

    /// A target was found, or the request for it was answered.
    pub fn target_found(target: &CrawlTarget) -> (message: ConsoleMessage)
        ensures
            message@ == about(ConsoleMessageType::Result, target@),
    {
        ConsoleMessage {
            message_type: ConsoleMessageType::Result,
            data: Ok(String::new()),
            original_target: None,
            crawl_target: Some(target.clone()),
            total: None,
        }
    }

    /// A forced-browsing session starts on `base` with `count` words.
    pub fn force_browse_start(count: usize, base: &CrawlTarget) -> (message: ConsoleMessage)
        ensures
            message@ == session_start(count as u64, base@),
    {
        ConsoleMessage {
            message_type: ConsoleMessageType::ForceBrowseStart,
            data: Ok(String::new()),
            original_target: None,
            crawl_target: Some(base.clone()),
            total: Some(count as u64),
        }
    }

    /// One probe of the session on `base` is over.
    pub fn force_browse_progress(base: &CrawlTarget) -> (message: ConsoleMessage)
        ensures
            message@ == about(ConsoleMessageType::ForceBrowseProgress, base@),
    {
        ConsoleMessage {
            message_type: ConsoleMessageType::ForceBrowseProgress,
            data: Ok(String::new()),
            original_target: None,
            crawl_target: Some(base.clone()),
            total: None,
        }
    }

    /// A probe found something: `hit` is the record of the response.
    pub fn force_browse_hit(hit: &CrawlTarget) -> (message: ConsoleMessage)
        ensures
            message@ == about(ConsoleMessageType::ForceBrowseHit, hit@),
    {
        ConsoleMessage {
            message_type: ConsoleMessageType::ForceBrowseHit,
            data: Ok(String::new()),
            original_target: None,
            crawl_target: Some(hit.clone()),
            total: None,
        }
    }

    /// `candidate` is about to be probed for the session on `base`.
    pub fn force_browse_attempt(candidate: &CrawlTarget, base: &CrawlTarget) -> (message:
        ConsoleMessage)
        ensures
            message@ == attempt(candidate@, base@),
    {
        ConsoleMessage {
            message_type: ConsoleMessageType::ForceBrowseAttempt,
            data: Ok(String::new()),
            original_target: Some(base.clone()),
            crawl_target: Some(candidate.clone()),
            total: None,
        }
    }

    /// The run ends at once: `target` is no address, for the given reason.
    pub fn abort(target: &str, reason: &str) -> (message: ConsoleMessage)
        ensures
            message@ == aborted(target@, reason@),
    {
        let mut text = String::from_str("Couldn't parse '");
        text.append(target);
        text.append("' as a URL: ");
        text.append(reason);
        ConsoleMessage {
            message_type: ConsoleMessageType::Abort,
            data: Err(text),
            original_target: None,
            crawl_target: None,
            total: None,
        }
    }

    /// The run is over, with this outcome.
    pub fn finish(outcome: Result<String, String>) -> (message: ConsoleMessage)
        ensures
            message@ == finished(
                match outcome {
                    Ok(text) => Ok(text@),
                    Err(text) => Err(text@),
                },
            ),
    {
        ConsoleMessage {
            message_type: ConsoleMessageType::Finish,
            data: outcome,
            original_target: None,
            crawl_target: None,
            total: None,
        }
    }
}

/// The kinds of message to the dispatcher.
#[derive(Clone, Copy, Debug, PartialEq, Eq, Structural)]
pub enum ControllerMessageType {
    FINISHED,
    ERROR,
}

/// What a top-level crawl tells the dispatcher when it ends.
pub struct ControllerMessage {
    pub message_type: ControllerMessageType,
    pub data: String,
}

/// A message to the dispatcher as plain mathematical values.
pub struct SignalView {
    pub message_type: ControllerMessageType,
    pub data: Seq<char>,
}

impl View for ControllerMessage {
    type V = SignalView;

    open spec fn view(&self) -> SignalView {
        SignalView { message_type: self.message_type, data: self.data@ }
    }
}

impl ControllerMessage {
    /// The signal of a crawl that ran to its end.
    pub open spec fn finished_view() -> SignalView {
        SignalView { message_type: ControllerMessageType::FINISHED, data: Seq::<char>::empty() }
    }

    /// The crawl ran to its end.
    pub fn finished() -> (message: ControllerMessage)
        ensures
            message@ == ControllerMessage::finished_view(),
    {
        ControllerMessage { message_type: ControllerMessageType::FINISHED, data: String::new() }
    }

    /// The crawl failed, for the reason in `data`.
    pub fn error(data: String) -> (message: ControllerMessage)
        ensures
            message@ == (SignalView { message_type: ControllerMessageType::ERROR, data: data@ }),
    {
        ControllerMessage { message_type: ControllerMessageType::ERROR, data }
    }
}

} // verus!
