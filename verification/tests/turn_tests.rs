use laoshi::error::Error;
use laoshi::turn::{
    get_text_content, turn_event_is_awaited, turn_init, turn_step, MessageContent, RunStatus,
    ThreadMessage, TurnAction, TurnEvent, TurnPhase, POLLING_DURATION_MS,
};

fn text_message(s: &str) -> ThreadMessage {
    ThreadMessage { content: vec![MessageContent::Text(s.to_string())] }
}

#[test]
fn polling_interval_is_half_a_second() {
    assert_eq!(POLLING_DURATION_MS, 500);
}

#[test]
fn extracts_text_of_first_content_item() {
    let msg = ThreadMessage {
        content: vec![
            MessageContent::Text("first".to_string()),
            MessageContent::Text("second".to_string()),
        ],
    };
    assert_eq!(get_text_content(msg).unwrap(), "first");
}

#[test]
fn rejects_message_without_content() {
    let msg = ThreadMessage { content: Vec::new() };
    assert_eq!(get_text_content(msg), Err(Error::NoMessageInMessageObjectContent));
}

#[test]
fn rejects_image_content() {
    let msg = ThreadMessage { content: vec![MessageContent::ImageFile] };
    assert_eq!(get_text_content(msg), Err(Error::MessageImageNotSupported));
}

#[test]
fn turn_polls_scripted_statuses_exactly_four_times() {
    // Turn protocol termination: [queued, in-progress, in-progress,
    // completed] takes exactly 4 polls, then the newest message's text
    // comes back.
    let script = [
        RunStatus::Queued,
        RunStatus::InProgress,
        RunStatus::InProgress,
        RunStatus::Completed,
    ];
    let (phase, action) = turn_init();
    assert!(matches!(action, TurnAction::PostMessage));
    let (phase, action) = turn_step(phase, TurnEvent::MessagePosted);
    assert!(matches!(action, TurnAction::StartRun));
    let (mut phase, mut action) = turn_step(phase, TurnEvent::RunStarted);
    let mut polls = 0;
    let mut script_iter = script.iter();
    while matches!(action, TurnAction::PollStatus) {
        let status = *script_iter.next().expect("protocol polled past the script");
        polls += 1;
        let event = TurnEvent::StatusFetched(status);
        assert!(turn_event_is_awaited(&phase, &event));
        let next = turn_step(phase, event);
        phase = next.0;
        action = next.1;
    }
    assert_eq!(polls, 4);
    assert!(matches!(action, TurnAction::FetchNewest));
    let (phase, action) = turn_step(
        phase,
        TurnEvent::ReplyFetched(Some(text_message("the reply"))),
    );
    assert!(matches!(action, TurnAction::Stop));
    match phase {
        TurnPhase::Done(text) => assert_eq!(text, "the reply"),
        other => panic!("expected Done, got {:?}", other),
    }
}

#[test]
fn turn_fails_on_image_reply() {
    // Image-reply rejection: an image as the newest message fails the
    // turn; no reply text comes back.
    let (phase, _) = turn_init();
    let (phase, _) = turn_step(phase, TurnEvent::MessagePosted);
    let (phase, _) = turn_step(phase, TurnEvent::RunStarted);
    let (phase, _) = turn_step(phase, TurnEvent::StatusFetched(RunStatus::Completed));
    let msg = ThreadMessage { content: vec![MessageContent::ImageFile] };
    let (phase, action) = turn_step(phase, TurnEvent::ReplyFetched(Some(msg)));
    assert!(matches!(action, TurnAction::Stop));
    assert!(matches!(phase, TurnPhase::Failed(Error::MessageImageNotSupported)));
}

#[test]
fn turn_fails_on_empty_thread() {
    let (phase, _) = turn_init();
    let (phase, _) = turn_step(phase, TurnEvent::MessagePosted);
    let (phase, _) = turn_step(phase, TurnEvent::RunStarted);
    let (phase, _) = turn_step(phase, TurnEvent::StatusFetched(RunStatus::Completed));
    let (phase, action) = turn_step(phase, TurnEvent::ReplyFetched(None));
    assert!(matches!(action, TurnAction::Stop));
    assert!(matches!(phase, TurnPhase::Failed(Error::NoMessageFoundInMessages)));
}

#[test]
fn turn_surfaces_other_terminal_statuses() {
    for status in [
        RunStatus::RequiresAction,
        RunStatus::Cancelling,
        RunStatus::Cancelled,
        RunStatus::Failed,
        RunStatus::Expired,
    ] {
        let (phase, _) = turn_init();
        let (phase, _) = turn_step(phase, TurnEvent::MessagePosted);
        let (phase, _) = turn_step(phase, TurnEvent::RunStarted);
        let (phase, action) = turn_step(phase, TurnEvent::StatusFetched(status));
        assert!(matches!(action, TurnAction::Stop));
        match phase {
            TurnPhase::Failed(Error::RunError(s)) => assert_eq!(s, status),
            other => panic!("expected RunError, got {:?}", other),
        }
    }
}

#[test]
fn turn_event_fit_is_checked() {
    let (phase, _) = turn_init();
    assert!(turn_event_is_awaited(&phase, &TurnEvent::MessagePosted));
    assert!(!turn_event_is_awaited(&phase, &TurnEvent::RunStarted));
    assert!(!turn_event_is_awaited(&phase, &TurnEvent::ReplyFetched(None)));
}
