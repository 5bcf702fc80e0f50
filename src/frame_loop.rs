use vstd::prelude::*;

verus! {

/// Where one pass of the capture, render and display loop stands.
#[derive(Clone, Copy, Debug, PartialEq, Eq, Structural)]
pub enum LoopState {
    /// Waiting for the next frame from the camera.
    Idle,
    /// A frame is being transformed, inferred on, rendered and shown.
    Processing,
    /// Waiting for the once-per-pass key check.
    KeyCheck,
    /// The loop has ended.
    Stopped,
}

/// What the outside world reports back to the loop.
#[derive(Clone, Copy, Debug, PartialEq, Eq, Structural)]
pub enum LoopEvent {
    /// The camera handed over a frame of this width (zero for an empty capture).
    Captured { width: i32 },
    /// The processed frame has been rendered and shown.
    Displayed,
    /// The display reported this key code.
    KeyPolled { key: i32 },
}

/// What the loop asks the outside world to do next.
#[derive(Clone, Copy, Debug, PartialEq, Eq, Structural)]
pub enum LoopAction {
    Capture,
    ProcessFrame,
    PollKey,
    Exit,
}

/// A key code that ends the loop: any real key press, that is a positive
/// code other than the sentinel 255 that some displays report for no key.
pub open spec fn is_quit_key_spec(key: i32) -> bool {
    key > 0 && key != 255
}

/// The next state and action after `event` arrives in `state`. An event that
/// does not fit the state is a broken contract and stops the loop.
pub open spec fn step_spec(state: LoopState, event: LoopEvent) -> (LoopState, LoopAction) {
    match (state, event) {
        (LoopState::Idle, LoopEvent::Captured { width }) => if width > 0 {
            (LoopState::Processing, LoopAction::ProcessFrame)
        } else {
            (LoopState::KeyCheck, LoopAction::PollKey)
        },
        (LoopState::Processing, LoopEvent::Displayed) => (LoopState::KeyCheck, LoopAction::PollKey),
        (LoopState::KeyCheck, LoopEvent::KeyPolled { key }) => if is_quit_key_spec(key) {
            (LoopState::Stopped, LoopAction::Exit)
        } else {
            (LoopState::Idle, LoopAction::Capture)
        },
        _ => (LoopState::Stopped, LoopAction::Exit),
    }
}

/// Whether `key` asks the loop to end.
pub fn is_quit_key(key: i32) -> (r: bool)
    ensures
        r == is_quit_key_spec(key),
{
    key > 0 && key != 255
}

/// The state the loop starts in and the first thing it asks for.
pub fn start() -> (r: (LoopState, LoopAction))
    ensures
        r == (LoopState::Idle, LoopAction::Capture),
{
    (LoopState::Idle, LoopAction::Capture)
}

/// Decides the next state and action of the loop.
pub fn step(state: LoopState, event: LoopEvent) -> (r: (LoopState, LoopAction))
    ensures
        r == step_spec(state, event),
{
    match (state, event) {
        (LoopState::Idle, LoopEvent::Captured { width }) => if width > 0 {
            (LoopState::Processing, LoopAction::ProcessFrame)
        } else {
            (LoopState::KeyCheck, LoopAction::PollKey)
        },
        (LoopState::Processing, LoopEvent::Displayed) => (LoopState::KeyCheck, LoopAction::PollKey),
        (LoopState::KeyCheck, LoopEvent::KeyPolled { key }) => if is_quit_key(key) {
            (LoopState::Stopped, LoopAction::Exit)
        } else {
            (LoopState::Idle, LoopAction::Capture)
        },
        _ => (LoopState::Stopped, LoopAction::Exit),
    }
}

/// A capture without width is skipped: the loop does not process it and goes
/// straight to the key check, then waits for the next frame.
pub proof fn lemma_empty_capture_skips(width: i32, key: i32)
    requires
        width <= 0,
        !is_quit_key_spec(key),
    ensures
        step_spec(LoopState::Idle, LoopEvent::Captured { width }).1 != LoopAction::ProcessFrame,
        step_spec(LoopState::Idle, LoopEvent::Captured { width }) == (
        LoopState::KeyCheck,
        LoopAction::PollKey,
        ),
        step_spec(LoopState::KeyCheck, LoopEvent::KeyPolled { key }) == (
        LoopState::Idle,
        LoopAction::Capture,
        ),
{
}

/// Every pass ends with the key check, whether a frame was processed or not.
pub proof fn lemma_key_checked_each_pass(width: i32)
    ensures
        ({
            let (s, a) = step_spec(LoopState::Idle, LoopEvent::Captured { width });
            a == LoopAction::PollKey || step_spec(s, LoopEvent::Displayed) == (
            LoopState::KeyCheck,
            LoopAction::PollKey,
            )
        }),
{
}

} // verus!
