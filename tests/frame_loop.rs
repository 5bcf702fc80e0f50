use movenet::frame_loop::{is_quit_key, start, step, LoopAction, LoopEvent, LoopState};

#[test]
fn empty_capture_skips_processing() {
    let (s, a) = start();
    assert_eq!((s, a), (LoopState::Idle, LoopAction::Capture));
    let (s, a) = step(s, LoopEvent::Captured { width: 0 });
    assert_eq!((s, a), (LoopState::KeyCheck, LoopAction::PollKey));
    let (s, a) = step(s, LoopEvent::KeyPolled { key: -1 });
    assert_eq!((s, a), (LoopState::Idle, LoopAction::Capture));
}

#[test]
fn captured_frame_is_processed_then_key_checked() {
    let (s, a) = step(LoopState::Idle, LoopEvent::Captured { width: 640 });
    assert_eq!((s, a), (LoopState::Processing, LoopAction::ProcessFrame));
    let (s, a) = step(s, LoopEvent::Displayed);
    assert_eq!((s, a), (LoopState::KeyCheck, LoopAction::PollKey));
    let (s, a) = step(s, LoopEvent::KeyPolled { key: 113 });
    assert_eq!((s, a), (LoopState::Stopped, LoopAction::Exit));
}

#[test]
fn quit_keys() {
    assert!(!is_quit_key(-1));
    assert!(!is_quit_key(0));
    assert!(!is_quit_key(255));
    assert!(is_quit_key(1));
    assert!(is_quit_key(27));
    assert!(is_quit_key(256));
}

#[test]
fn out_of_order_event_stops() {
    assert_eq!(
        step(LoopState::Idle, LoopEvent::Displayed),
        (LoopState::Stopped, LoopAction::Exit)
    );
    assert_eq!(
        step(LoopState::Processing, LoopEvent::Captured { width: 5 }),
        (LoopState::Stopped, LoopAction::Exit)
    );
    assert_eq!(
        step(LoopState::Stopped, LoopEvent::KeyPolled { key: -1 }),
        (LoopState::Stopped, LoopAction::Exit)
    );
}
