//! The conversation manager: a persisted handle to a remote thread.
//!
//! A `Conversation` wraps the remote thread reference and is persisted
//! as a one-field record, so a later process can pick the conversation
//! up where it stood. Loading follows a small protocol: optionally
//! remove the persisted record (recreate), read and parse it, validate
//! that the referenced thread still resolves remotely, and otherwise
//! create a fresh thread and persist it. A persisted conversation whose
//! thread no longer resolves is surfaced as an error, never silently
//! replaced: losing a thread on purpose takes an explicit recreate.

use vstd::prelude::*;

use crate::error::Error;
use crate::ids::ThreadId;

verus! {

/// The local, persisted wrapper around a remote thread reference.
#[derive(Debug)]
pub struct Conversation {
    thread_id: ThreadId,
}

impl View for Conversation {
    type V = Seq<char>;

    closed spec fn view(&self) -> Seq<char> {
        self.thread_id@
    }
}

impl Conversation {
    /// Wraps a thread reference.
    pub fn new(thread_id: ThreadId) -> (r: Conversation)
        ensures
            r@ == thread_id@,
    {
        Conversation { thread_id }
    }

    /// The wrapped thread reference.
    pub fn thread_id(&self) -> (r: &ThreadId)
        ensures
            r@ == self@,
    {
        &self.thread_id
    }

    /// A copy wrapping the same thread reference.
    pub fn dup(&self) -> (r: Conversation)
        ensures
            r@ == self@,
    {
        Conversation { thread_id: self.thread_id.dup() }
    }
}

/// The persisted record for a thread reference: a one-field object.
pub open spec fn conv_json(thread: Seq<char>) -> Seq<char> {
    "{\"thread_id\":\""@ + thread + "\"}"@
}

/// Whether a text has the shape of a persisted conversation record.
pub open spec fn is_conv_json(text: Seq<char>) -> bool {
    &&& text.len() >= "{\"thread_id\":\""@.len() + "\"}"@.len()
    &&& text.subrange(0, "{\"thread_id\":\""@.len() as int) == "{\"thread_id\":\""@
    &&& text.subrange(text.len() - "\"}"@.len(), text.len() as int) == "\"}"@
}

/// The thread reference a persisted record carries.
pub open spec fn conv_json_thread(text: Seq<char>) -> Seq<char> {
    text.subrange("{\"thread_id\":\""@.len() as int, text.len() - "\"}"@.len())
}

/// Renders a conversation as its persisted record.
pub fn conversation_to_json(conv: &Conversation) -> (r: String)
    ensures
        r@ == conv_json(conv@),
{
    let mut s = "{\"thread_id\":\"".to_owned();
    s.append(conv.thread_id.as_str());
    s.append("\"}");
    s
}

/// Parses a persisted record back into a conversation.
///
/// Anything that does not have the record's shape — absent, truncated,
/// or foreign text — parses to nothing, and the caller creates a fresh
/// conversation instead.
pub fn conversation_from_json(text: &str) -> (r: Option<Conversation>)
    ensures
        r matches Some(c) ==> is_conv_json(text@) && c@ == conv_json_thread(text@),
        r is None ==> !is_conv_json(text@),
{
    proof {
        reveal_strlit("{\"thread_id\":\"");
        reveal_strlit("\"}");
    }
    let len = text.unicode_len();
    if len < 16 {
        return None;
    }
    let prefix = text.substring_char(0, 14);
    if !crate::strutil::str_eq(prefix, "{\"thread_id\":\"") {
        return None;
    }
    let suffix = text.substring_char(len - 2, len);
    if !crate::strutil::str_eq(suffix, "\"}") {
        return None;
    }
    let thread_raw = text.substring_char(14, len - 2).to_owned();
    let conv = Conversation::new(ThreadId::new(thread_raw));
    Some(conv)
}

/// Conversation round-trip: a persisted conversation record always
/// parses back to a conversation wrapping the very thread reference it
/// was rendered from, whatever that reference is.
pub proof fn lemma_conversation_round_trip(thread: Seq<char>)
    ensures
        is_conv_json(conv_json(thread)),
        conv_json_thread(conv_json(thread)) == thread,
{
    reveal_strlit("{\"thread_id\":\"");
    reveal_strlit("\"}");
    let text = conv_json(thread);
    assert(text.subrange(0, 14) =~= "{\"thread_id\":\""@);
    assert(text.subrange(text.len() - 2, text.len() as int) =~= "\"}"@);
    assert(conv_json_thread(text) =~= thread);
}

/// Phase of the load-or-create protocol.
#[derive(Debug)]
pub enum ConvLoadPhase {
    /// A recreate was asked: waiting for the persisted record to be
    /// removed.
    RemovingStale,
    /// Waiting for the persisted record's text.
    Reading,
    /// A record was parsed: waiting for the remote thread fetch that
    /// validates it.
    Validating(Conversation),
    /// Waiting for a fresh remote thread.
    Creating,
    /// Waiting for the fresh conversation's record to be persisted.
    Saving(Conversation),
    /// The conversation to use.
    Done(Conversation),
    /// Loading failed.
    Failed(Error),
}

/// What the driver observed while performing the previous action.
#[derive(Debug)]
pub enum ConvLoadEvent {
    /// The persisted record is gone (it may not have existed).
    FileRemoved,
    /// The persisted record's text, or nothing when the file is absent
    /// or unreadable.
    FileRead(Option<String>),
    /// Whether the remote thread fetch resolved the reference.
    ThreadFound(bool),
    /// A fresh remote thread was created.
    ThreadCreated(ThreadId),
    /// The record was persisted.
    Saved,
}

/// The next call the driver must perform.
#[derive(Debug)]
pub enum ConvLoadAction {
    /// Remove the persisted record, if present.
    RemoveConvFile,
    /// Read the persisted record.
    ReadConvFile,
    /// Fetch this thread from the provider.
    FetchThread(ThreadId),
    /// Create a fresh remote thread.
    CreateThread,
    /// Persist this record text.
    SaveConvFile(String),
    /// The protocol is over; no further call.
    Stop,
}

/// Whether `event` is the kind of observation that `phase` awaits.
pub open spec fn conv_event_fits(phase: ConvLoadPhase, event: ConvLoadEvent) -> bool {
    match (phase, event) {
        (ConvLoadPhase::RemovingStale, ConvLoadEvent::FileRemoved) => true,
        (ConvLoadPhase::Reading, ConvLoadEvent::FileRead(_)) => true,
        (ConvLoadPhase::Validating(_), ConvLoadEvent::ThreadFound(_)) => true,
        (ConvLoadPhase::Creating, ConvLoadEvent::ThreadCreated(_)) => true,
        (ConvLoadPhase::Saving(_), ConvLoadEvent::Saved) => true,
        _ => false,
    }
}

/// Exec mirror of [`conv_event_fits`], for the unverified driver to
/// check before it steps.
pub fn conv_event_is_awaited(phase: &ConvLoadPhase, event: &ConvLoadEvent) -> (r: bool)
    ensures
        r == conv_event_fits(*phase, *event),
{
    match (phase, event) {
        (ConvLoadPhase::RemovingStale, ConvLoadEvent::FileRemoved) => true,
        (ConvLoadPhase::Reading, ConvLoadEvent::FileRead(_)) => true,
        (ConvLoadPhase::Validating(_), ConvLoadEvent::ThreadFound(_)) => true,
        (ConvLoadPhase::Creating, ConvLoadEvent::ThreadCreated(_)) => true,
        (ConvLoadPhase::Saving(_), ConvLoadEvent::Saved) => true,
        _ => false,
    }
}

/// The opening phase and action: with `recreate`, first remove the
/// persisted record; otherwise read it.
pub fn conv_load_init(recreate: bool) -> (r: (ConvLoadPhase, ConvLoadAction))
    ensures
        recreate ==> r.0 is RemovingStale && r.1 is RemoveConvFile,
        !recreate ==> r.0 is Reading && r.1 is ReadConvFile,
{
    if recreate {
        (ConvLoadPhase::RemovingStale, ConvLoadAction::RemoveConvFile)
    } else {
        (ConvLoadPhase::Reading, ConvLoadAction::ReadConvFile)
    }
}

/// One step of the load-or-create protocol.
///
/// A parsed record must validate remotely: when the thread fetch does
/// not resolve, the load fails with the conversation's reference, and
/// no fresh conversation is created in its place. An absent or
/// malformed record, or a removed one after recreate, leads to a fresh
/// thread that is persisted before use.
pub fn conv_load_step(phase: ConvLoadPhase, event: ConvLoadEvent) -> (r: (
    ConvLoadPhase,
    ConvLoadAction,
))
    requires
        conv_event_fits(phase, event),
    ensures
        phase is RemovingStale ==> r.0 is Creating && r.1 is CreateThread,
        phase is Reading ==> (event matches ConvLoadEvent::FileRead(read) ==> match read {
            Option::None => r.0 is Creating && r.1 is CreateThread,
            Option::Some(text) => if is_conv_json(text@) {
                {
                    &&& r.0 matches ConvLoadPhase::Validating(c)
                    &&& c@ == conv_json_thread(text@)
                    &&& r.1 matches ConvLoadAction::FetchThread(tid)
                    &&& tid@ == c@
                }
            } else {
                (r.0 is Creating && r.1 is CreateThread)
            },
        }),
        phase matches ConvLoadPhase::Validating(c) ==> (event matches ConvLoadEvent::ThreadFound(
            found,
        ) ==> if found {
            (r.0 matches ConvLoadPhase::Done(d) && d@ == c@ && r.1 is Stop)
        } else {
            (r.0 matches ConvLoadPhase::Failed(e) && (e matches Error::CannotFindThreadIdForConv(
                raw,
            ) && raw@ == c@) && r.1 is Stop)
        }),
        phase is Creating ==> (event matches ConvLoadEvent::ThreadCreated(tid) ==> {
            &&& r.0 matches ConvLoadPhase::Saving(c)
            &&& c@ == tid@
            &&& r.1 matches ConvLoadAction::SaveConvFile(text)
            &&& text@ == conv_json(tid@)
        }),
        phase matches ConvLoadPhase::Saving(c) ==> (r.0 matches ConvLoadPhase::Done(d) && d@ == c@
            && r.1 is Stop),
{
    match (phase, event) {
        (ConvLoadPhase::RemovingStale, ConvLoadEvent::FileRemoved) => (
            ConvLoadPhase::Creating,
            ConvLoadAction::CreateThread,
        ),
        (ConvLoadPhase::Reading, ConvLoadEvent::FileRead(read)) => match read {
            Option::None => (ConvLoadPhase::Creating, ConvLoadAction::CreateThread),
            Option::Some(text) => match conversation_from_json(text.as_str()) {
                Option::Some(conv) => {
                    let fetch = conv.thread_id().dup();
                    (ConvLoadPhase::Validating(conv), ConvLoadAction::FetchThread(fetch))
                },
                Option::None => (ConvLoadPhase::Creating, ConvLoadAction::CreateThread),
            },
        },
        (ConvLoadPhase::Validating(conv), ConvLoadEvent::ThreadFound(found)) => {
            if found {
                (ConvLoadPhase::Done(conv), ConvLoadAction::Stop)
            } else {
                let raw = conv.thread_id().as_str().to_owned();
                (
                    ConvLoadPhase::Failed(Error::CannotFindThreadIdForConv(raw)),
                    ConvLoadAction::Stop,
                )
            }
        },
        (ConvLoadPhase::Creating, ConvLoadEvent::ThreadCreated(tid)) => {
            let conv = Conversation::new(tid);
            let record = conversation_to_json(&conv);
            (ConvLoadPhase::Saving(conv), ConvLoadAction::SaveConvFile(record))
        },
        (ConvLoadPhase::Saving(conv), ConvLoadEvent::Saved) => (
            ConvLoadPhase::Done(conv),
            ConvLoadAction::Stop,
        ),
        _ => {
            proof {
                assert(false);
            }
            (ConvLoadPhase::Creating, ConvLoadAction::CreateThread)
        },
    }
}

} // verus!
