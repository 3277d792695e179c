//! The turn executor: one conversational turn as a run-to-completion
//! protocol.
//!
//! A turn posts the user's message on the thread, starts a run of the
//! assistant, polls the run's status until a terminal status is
//! observed, and on completion extracts the newest message's text. The
//! remote calls are asynchronous I/O and live in the unverified driver;
//! here the protocol is a step function from the current phase and the
//! observed event to the next phase and the next action. The driver
//! performs one action at a time (sleeping [`POLLING_DURATION_MS`]
//! milliseconds before each status poll) and feeds the outcome back in.

use vstd::prelude::*;

use crate::error::Error;

verus! {

/// Milliseconds the driver sleeps between two status polls.
pub const POLLING_DURATION_MS: u64 = 500;

/// Status of a remote run, as the provider reports it.
#[derive(Clone, Copy, Debug, PartialEq, Eq, Structural)]
pub enum RunStatus {
    Queued,
    InProgress,
    RequiresAction,
    Cancelling,
    Cancelled,
    Failed,
    Completed,
    Expired,
}

/// One content item of a thread message: text, or an image (whose
/// payload the core never reads).
#[derive(Debug)]
pub enum MessageContent {
    Text(String),
    ImageFile,
}

/// A message fetched from a thread, reduced to its content items.
#[derive(Debug)]
pub struct ThreadMessage {
    pub content: Vec<MessageContent>,
}

/// Extracts the text of a message's first content item.
///
/// Fails when the message carries no content at all, and fails with a
/// distinct error when the first content item is an image: this agent
/// handles text-only turns, and an image reply is surfaced, never
/// coerced.
pub fn get_text_content(message: ThreadMessage) -> (r: Result<String, Error>)
    ensures
        message.content@.len() == 0 ==> (r matches Err(e) && e is NoMessageInMessageObjectContent),
        message.content@.len() > 0 ==> (message.content@[0] matches MessageContent::Text(t) ==> (r
            matches Ok(s) && s@ == t@)),
        message.content@.len() > 0 && message.content@[0] is ImageFile ==> (r matches Err(e) && e
            is MessageImageNotSupported),
{
    if message.content.len() == 0 {
        return Err(Error::NoMessageInMessageObjectContent);
    }
    match &message.content[0] {
        MessageContent::Text(t) => Ok(t.clone()),
        MessageContent::ImageFile => Err(Error::MessageImageNotSupported),
    }
}

/// What one observed run status means for the polling loop.
#[derive(Clone, Copy, Debug, PartialEq, Eq, Structural)]
pub enum PollVerdict {
    /// The run is still queued or in progress: poll again.
    KeepPolling,
    /// The run completed: fetch the newest message.
    ReplyReady,
    /// The run ended in some other terminal status: abort, carrying it.
    Abort(RunStatus),
}

/// The verdict of the polling loop on one observed status.
pub open spec fn poll_verdict(s: RunStatus) -> PollVerdict {
    match s {
        RunStatus::Queued => PollVerdict::KeepPolling,
        RunStatus::InProgress => PollVerdict::KeepPolling,
        RunStatus::Completed => PollVerdict::ReplyReady,
        _ => PollVerdict::Abort(s),
    }
}

/// Phase of one turn of the protocol.
#[derive(Debug)]
pub enum TurnPhase {
    /// Waiting for the user's message to be posted on the thread.
    PostingMessage,
    /// Waiting for the run to be started.
    StartingRun,
    /// Waiting for the next status poll of the run.
    PollingRun,
    /// The run completed; waiting for the newest message of the thread.
    FetchingReply,
    /// The turn produced the assistant's reply text.
    Done(String),
    /// The turn failed.
    Failed(Error),
}

/// What the driver observed while performing the previous action.
#[derive(Debug)]
pub enum TurnEvent {
    /// The user's message is on the thread.
    MessagePosted,
    /// The run was created.
    RunStarted,
    /// One status poll returned this status.
    StatusFetched(RunStatus),
    /// The newest-first, single-message listing of the thread returned
    /// this message, or nothing when the thread holds no messages.
    ReplyFetched(Option<ThreadMessage>),
}

/// The next remote call the driver must perform.
#[derive(Debug)]
pub enum TurnAction {
    /// Post the user's message on the thread.
    PostMessage,
    /// Start a run of the assistant against the thread.
    StartRun,
    /// Sleep, then fetch the run's current status.
    PollStatus,
    /// Fetch the newest message of the thread (page size 1, newest
    /// first).
    FetchNewest,
    /// The turn is over; no further call.
    Stop,
}

/// Whether `event` is the kind of observation that `phase` awaits.
pub open spec fn turn_event_fits(phase: TurnPhase, event: TurnEvent) -> bool {
    match (phase, event) {
        (TurnPhase::PostingMessage, TurnEvent::MessagePosted) => true,
        (TurnPhase::StartingRun, TurnEvent::RunStarted) => true,
        (TurnPhase::PollingRun, TurnEvent::StatusFetched(_)) => true,
        (TurnPhase::FetchingReply, TurnEvent::ReplyFetched(_)) => true,
        _ => false,
    }
}

/// Exec mirror of [`turn_event_fits`], for the unverified driver to
/// check before it steps.
pub fn turn_event_is_awaited(phase: &TurnPhase, event: &TurnEvent) -> (r: bool)
    ensures
        r == turn_event_fits(*phase, *event),
{
    match (phase, event) {
        (TurnPhase::PostingMessage, TurnEvent::MessagePosted) => true,
        (TurnPhase::StartingRun, TurnEvent::RunStarted) => true,
        (TurnPhase::PollingRun, TurnEvent::StatusFetched(_)) => true,
        (TurnPhase::FetchingReply, TurnEvent::ReplyFetched(_)) => true,
        _ => false,
    }
}

/// The opening phase and action of a turn.
pub fn turn_init() -> (r: (TurnPhase, TurnAction))
    ensures
        r.0 is PostingMessage,
        r.1 is PostMessage,
{
    (TurnPhase::PostingMessage, TurnAction::PostMessage)
}

/// One step of the turn protocol.
///
/// The driver calls this with the event produced by the action it just
/// performed; the returned action is the next call to make. The polling
/// loop has no bounded retry count: it issues another poll for every
/// queued or in-progress status, and leaves the loop only on a terminal
/// one.
pub fn turn_step(phase: TurnPhase, event: TurnEvent) -> (r: (TurnPhase, TurnAction))
    requires
        turn_event_fits(phase, event),
    ensures
        phase is PostingMessage ==> r.0 is StartingRun && r.1 is StartRun,
        phase is StartingRun ==> r.0 is PollingRun && r.1 is PollStatus,
        phase is PollingRun ==> (event matches TurnEvent::StatusFetched(s) ==> match poll_verdict(
            s,
        ) {
            PollVerdict::KeepPolling => r.0 is PollingRun && r.1 is PollStatus,
            PollVerdict::ReplyReady => r.0 is FetchingReply && r.1 is FetchNewest,
            PollVerdict::Abort(st) => (r.0 matches TurnPhase::Failed(Error::RunError(st2)) && st2
                == st && r.1 is Stop),
        }),
        phase is FetchingReply ==> (event matches TurnEvent::ReplyFetched(reply) ==> match reply {
            Option::None => (r.0 matches TurnPhase::Failed(e) && e is NoMessageFoundInMessages
                && r.1 is Stop),
            Option::Some(m) => {
                &&& m.content@.len() == 0 ==> (r.0 matches TurnPhase::Failed(e) && e
                    is NoMessageInMessageObjectContent && r.1 is Stop)
                &&& m.content@.len() > 0 ==> (m.content@[0] matches MessageContent::Text(t) ==> (
                r.0 matches TurnPhase::Done(reply_text) && reply_text@ == t@ && r.1 is Stop))
                &&& m.content@.len() > 0 && m.content@[0] is ImageFile ==> (r.0 matches
                TurnPhase::Failed(e) && e is MessageImageNotSupported && r.1 is Stop)
            },
        }),
{
    match (phase, event) {
        (TurnPhase::PostingMessage, TurnEvent::MessagePosted) => (
            TurnPhase::StartingRun,
            TurnAction::StartRun,
        ),
        (TurnPhase::StartingRun, TurnEvent::RunStarted) => (
            TurnPhase::PollingRun,
            TurnAction::PollStatus,
        ),
        (TurnPhase::PollingRun, TurnEvent::StatusFetched(s)) => match s {
            RunStatus::Queued => (TurnPhase::PollingRun, TurnAction::PollStatus),
            RunStatus::InProgress => (TurnPhase::PollingRun, TurnAction::PollStatus),
            RunStatus::Completed => (TurnPhase::FetchingReply, TurnAction::FetchNewest),
            other => (TurnPhase::Failed(Error::RunError(other)), TurnAction::Stop),
        },
        (TurnPhase::FetchingReply, TurnEvent::ReplyFetched(reply)) => match reply {
            Option::None => (TurnPhase::Failed(Error::NoMessageFoundInMessages), TurnAction::Stop),
            Option::Some(m) => match get_text_content(m) {
                Ok(text) => (TurnPhase::Done(text), TurnAction::Stop),
                Err(e) => (TurnPhase::Failed(e), TurnAction::Stop),
            },
        },
        _ => {
            proof {
                assert(false);
            }
            (TurnPhase::Failed(Error::NoMessageFoundInMessages), TurnAction::Stop)
        },
    }
}

/// How many statuses the polling loop consumes from a scripted status
/// sequence: one per poll, stopping at the first terminal status.
pub open spec fn statuses_consumed(script: Seq<RunStatus>) -> nat
    decreases script.len(),
{
    if script.len() == 0 {
        0
    } else if poll_verdict(script[0]) is KeepPolling {
        1 + statuses_consumed(script.skip(1))
    } else {
        1
    }
}

/// How the polling loop leaves a scripted status sequence:
/// `KeepPolling` means the script ran out before a terminal status.
pub open spec fn poll_loop_result(script: Seq<RunStatus>) -> PollVerdict
    decreases script.len(),
{
    if script.len() == 0 {
        PollVerdict::KeepPolling
    } else if poll_verdict(script[0]) is KeepPolling {
        poll_loop_result(script.skip(1))
    } else {
        poll_verdict(script[0])
    }
}

/// Turn protocol termination: against a scripted status sequence whose
/// every status but the last is queued or in progress and whose last is
/// completed, the polling loop consumes the whole script — by
/// [`turn_step`]'s contract, exactly one poll per status — and then
/// fetches the newest message.
pub proof fn lemma_turn_protocol_termination(script: Seq<RunStatus>)
    requires
        script.len() > 0,
        forall|i: int|
            0 <= i < script.len() - 1 ==> (#[trigger] script[i] is Queued || script[i]
                is InProgress),
        script.last() is Completed,
    ensures
        statuses_consumed(script) == script.len(),
        poll_loop_result(script) is ReplyReady,
    decreases script.len(),
{
    if script.len() == 1 {
        assert(script[0] is Completed);
    } else {
        assert(script[0] is Queued || script[0] is InProgress);
        let rest = script.skip(1);
        assert(rest.last() == script.last());
        assert forall|i: int| 0 <= i < rest.len() - 1 implies (#[trigger] rest[i] is Queued
            || rest[i] is InProgress) by {
            assert(rest[i] == script[i + 1]);
        }
        lemma_turn_protocol_termination(rest);
    }
}

} // verus!
