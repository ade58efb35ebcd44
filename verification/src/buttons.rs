//! Button watching and debouncing.
//!
//! Three physical inputs are raced simultaneously for falling edges. When one
//! fires, a fixed debounce window is waited out, the input is checked again,
//! and only if it is still pressed does the watcher wait for the release and
//! report the press. A spurious edge that does not survive the debounce
//! window is discarded, and control returns to racing all three inputs.
//! Each verified press yields exactly one event, however long the button is
//! held. The GPIO edge waits and the debounce timer live in the runtime; the
//! state machine here takes their completions and decides every transition.

use vstd::prelude::*;
use crate::events::Event;

verus! {

/// Length of the debounce window in milliseconds.
pub const DEBOUNCE_MILLIS: u64 = 50;

/// Identifies which of the three physical inputs triggered an event.
#[derive(Debug, Clone, Copy, PartialEq, Eq, Structural)]
pub enum Button {
    Key0,
    Key1,
    Key2,
}

/// The event a verified press of each button publishes.
pub open spec fn event_for_button(button: Button) -> Event {
    match button {
        Button::Key0 => Event::Key0Pressed,
        Button::Key1 => Event::Key1Pressed,
        Button::Key2 => Event::Key2Pressed,
    }
}

/// Map a verified press to its event: one event per press, 1:1.
pub fn button_event(button: Button) -> (event: Event)
    ensures
        event == event_for_button(button),
{
    match button {
        Button::Key0 => Event::Key0Pressed,
        Button::Key1 => Event::Key1Pressed,
        Button::Key2 => Event::Key2Pressed,
    }
}

/// Where the watcher stands between suspension points.
#[derive(Debug, Clone, Copy, PartialEq, Eq, Structural)]
pub enum WatchPhase {
    /// Racing falling edges on all three inputs.
    Racing,
    /// A falling edge was seen on this button; the debounce window runs.
    Settling(Button),
    /// The press survived the window; waiting for the release edge.
    AwaitingRelease(Button),
}

/// A completion the runtime hands the watcher.
#[derive(Debug, Clone, Copy, PartialEq, Eq, Structural)]
pub enum WatchInput {
    /// A falling edge won the race on this button.
    FallingEdge(Button),
    /// The debounce window elapsed; `still_pressed` is whether the input is
    /// still observed low (pressed).
    DebounceElapsed { still_pressed: bool },
    /// The awaited rising edge arrived: the button was released.
    RisingEdge,
}

/// The transition table. Inputs that cannot occur in a phase leave the phase
/// unchanged and report nothing.
pub open spec fn watch_transition(phase: WatchPhase, input: WatchInput) -> (
    WatchPhase,
    Option<Event>,
) {
    match (phase, input) {
        (WatchPhase::Racing, WatchInput::FallingEdge(button)) => (
            WatchPhase::Settling(button),
            None::<Event>,
        ),
        (WatchPhase::Settling(button), WatchInput::DebounceElapsed { still_pressed }) => {
            if still_pressed {
                (WatchPhase::AwaitingRelease(button), None::<Event>)
            } else {
                (WatchPhase::Racing, None::<Event>)
            }
        },
        (WatchPhase::AwaitingRelease(button), WatchInput::RisingEdge) => (
            WatchPhase::Racing,
            Some(event_for_button(button)),
        ),
        (_, _) => (phase, None::<Event>),
    }
}

/// One debounce step: from the current phase and the completion that arrived,
/// the next phase and the event to publish, if any.
pub fn watch_step(phase: WatchPhase, input: WatchInput) -> (step: (WatchPhase, Option<Event>))
    ensures
        step == watch_transition(phase, input),
{
    match (phase, input) {
        (WatchPhase::Racing, WatchInput::FallingEdge(button)) => (
            WatchPhase::Settling(button),
            None,
        ),
        (WatchPhase::Settling(button), WatchInput::DebounceElapsed { still_pressed }) => {
            if still_pressed {
                (WatchPhase::AwaitingRelease(button), None)
            } else {
                (WatchPhase::Racing, None)
            }
        },
        (WatchPhase::AwaitingRelease(button), WatchInput::RisingEdge) => (
            WatchPhase::Racing,
            Some(button_event(button)),
        ),
        (phase, _) => (phase, None),
    }
}

/// Debounce rejection: an event is reported only on the release edge of a
/// press that survived the full debounce window still held down. In
/// particular, contact bounce — a falling edge whose input is back high when
/// the window elapses — reports nothing and returns the watcher to racing
/// all three inputs.
pub proof fn lemma_event_only_after_surviving_debounce(phase: WatchPhase, input: WatchInput)
    ensures
        watch_transition(phase, input).1 is Some ==> phase is AwaitingRelease
            && input is RisingEdge,
        (phase is Settling && input matches WatchInput::DebounceElapsed { still_pressed: false })
            ==> watch_transition(phase, input) == (WatchPhase::Racing, None::<Event>),
{
}

/// Reaching `AwaitingRelease` takes a falling edge followed by a debounce
/// window that elapsed with the input still pressed: the only path to a
/// reported event runs through a full, surviving debounce window.
pub proof fn lemma_release_wait_needs_surviving_window(phase: WatchPhase, input: WatchInput)
    ensures
        watch_transition(phase, input).0 is AwaitingRelease ==> (phase is AwaitingRelease || (
        phase is Settling && input matches WatchInput::DebounceElapsed { still_pressed: true })),
{
}

} // verus!
