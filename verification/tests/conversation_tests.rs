use laoshi::conversation::{
    conv_event_is_awaited, conv_load_init, conv_load_step, conversation_from_json,
    conversation_to_json, Conversation, ConvLoadAction, ConvLoadEvent, ConvLoadPhase,
};
use laoshi::error::Error;
use laoshi::ids::ThreadId;

fn tid(s: &str) -> ThreadId {
    ThreadId::new(s.to_string())
}

#[test]
fn record_exact_format() {
    let conv = Conversation::new(tid("thread_abc123"));
    assert_eq!(conversation_to_json(&conv), "{\"thread_id\":\"thread_abc123\"}");
}

#[test]
fn record_round_trip() {
    // Conversation round-trip: persist, reload in a "fresh process",
    // and the thread reference is the original.
    let original = Conversation::new(tid("thread_abc123"));
    let persisted = conversation_to_json(&original);
    let reloaded = conversation_from_json(persisted.as_str()).unwrap();
    assert_eq!(reloaded.thread_id().as_str(), original.thread_id().as_str());
}

#[test]
fn record_round_trip_is_insensitive_to_odd_references() {
    // The record's shape is fixed affixes around the reference, so even
    // a reference holding a quote survives the trip.
    let original = Conversation::new(tid("thr\"ead"));
    let reloaded = conversation_from_json(conversation_to_json(&original).as_str()).unwrap();
    assert_eq!(reloaded.thread_id().as_str(), "thr\"ead");
}

#[test]
fn record_rejects_foreign_text() {
    assert!(conversation_from_json("").is_none());
    assert!(conversation_from_json("{}").is_none());
    assert!(conversation_from_json("{\"thread\":\"thread_abc\"}").is_none());
    assert!(conversation_from_json("{\"thread_id\":\"thread_abc\"").is_none());
}

#[test]
fn load_reads_then_validates_then_done() {
    // A persisted conversation that still resolves remotely is loaded.
    let (phase, action) = conv_load_init(false);
    assert!(matches!(action, ConvLoadAction::ReadConvFile));
    let record = "{\"thread_id\":\"thread_abc\"}".to_string();
    let event = ConvLoadEvent::FileRead(Some(record));
    assert!(conv_event_is_awaited(&phase, &event));
    let (phase, action) = conv_load_step(phase, event);
    match &action {
        ConvLoadAction::FetchThread(t) => assert_eq!(t.as_str(), "thread_abc"),
        other => panic!("expected FetchThread, got {:?}", other),
    }
    let (phase, action) = conv_load_step(phase, ConvLoadEvent::ThreadFound(true));
    assert!(matches!(action, ConvLoadAction::Stop));
    match phase {
        ConvLoadPhase::Done(conv) => assert_eq!(conv.thread_id().as_str(), "thread_abc"),
        other => panic!("expected Done, got {:?}", other),
    }
}

#[test]
fn load_fails_when_thread_does_not_resolve() {
    let (phase, _) = conv_load_init(false);
    let record = "{\"thread_id\":\"thread_gone\"}".to_string();
    let (phase, _) = conv_load_step(phase, ConvLoadEvent::FileRead(Some(record)));
    let (phase, action) = conv_load_step(phase, ConvLoadEvent::ThreadFound(false));
    assert!(matches!(action, ConvLoadAction::Stop));
    match phase {
        ConvLoadPhase::Failed(Error::CannotFindThreadIdForConv(raw)) => {
            assert_eq!(raw, "thread_gone")
        }
        other => panic!("expected CannotFindThreadIdForConv, got {:?}", other),
    }
}

#[test]
fn load_creates_when_record_absent_or_malformed() {
    for read in [None, Some("not a record".to_string())] {
        let (phase, _) = conv_load_init(false);
        let (phase, action) = conv_load_step(phase, ConvLoadEvent::FileRead(read));
        assert!(matches!(phase, ConvLoadPhase::Creating));
        assert!(matches!(action, ConvLoadAction::CreateThread));
    }
}

#[test]
fn load_recreate_removes_then_creates_and_saves() {
    let (phase, action) = conv_load_init(true);
    assert!(matches!(action, ConvLoadAction::RemoveConvFile));
    let (phase, action) = conv_load_step(phase, ConvLoadEvent::FileRemoved);
    assert!(matches!(action, ConvLoadAction::CreateThread));
    let (phase, action) = conv_load_step(phase, ConvLoadEvent::ThreadCreated(tid("thread_new")));
    match &action {
        ConvLoadAction::SaveConvFile(text) => {
            assert_eq!(text, "{\"thread_id\":\"thread_new\"}")
        }
        other => panic!("expected SaveConvFile, got {:?}", other),
    }
    let (phase, action) = conv_load_step(phase, ConvLoadEvent::Saved);
    assert!(matches!(action, ConvLoadAction::Stop));
    match phase {
        ConvLoadPhase::Done(conv) => assert_eq!(conv.thread_id().as_str(), "thread_new"),
        other => panic!("expected Done, got {:?}", other),
    }
}

#[test]
fn load_event_fit_is_checked() {
    let (phase, _) = conv_load_init(false);
    assert!(!conv_event_is_awaited(&phase, &ConvLoadEvent::Saved));
    assert!(!conv_event_is_awaited(&phase, &ConvLoadEvent::ThreadFound(true)));
    assert!(conv_event_is_awaited(&phase, &ConvLoadEvent::FileRead(None)));
}
