//! The interruptible periodic scheduler.
//!
//! The scheduler loops: it reads the stored update delay, then races a timer
//! of that many seconds against its interrupt wake. Each round ends in one of
//! two ways, and `scheduler_step` decides what follows: an elapsed timer
//! publishes `TimerExpired` and the loop re-reads the (possibly changed)
//! delay; an interrupt publishes nothing — the loop simply restarts, which
//! re-reads the updated delay and begins a fresh wait from zero. The
//! effective wait therefore always honors the most recently stored delay,
//! and an abandoned wait never yields a premature or duplicate expiry.

use vstd::prelude::*;
use crate::events::Event;
use crate::state::AppState;

verus! {

/// How one scheduler wait round ended.
#[derive(Debug, Clone, Copy, PartialEq, Eq, Structural)]
pub enum WaitOutcome {
    /// The full delay elapsed without interruption.
    TimerElapsed,
    /// The interrupt wake fired first; the timer branch is abandoned.
    Interrupted,
}

/// What the scheduler does after a wait round.
#[derive(Debug, Clone, Copy, PartialEq, Eq, Structural)]
pub enum SchedulerAction {
    /// Publish `TimerExpired` on the event bus, then restart the loop.
    PublishTimerExpired,
    /// Publish nothing; restart the loop, re-reading the stored delay.
    Restart,
}

/// The decision table: only an uninterrupted, fully elapsed wait publishes.
pub open spec fn action_for(outcome: WaitOutcome) -> SchedulerAction {
    match outcome {
        WaitOutcome::TimerElapsed => SchedulerAction::PublishTimerExpired,
        WaitOutcome::Interrupted => SchedulerAction::Restart,
    }
}

/// The event a scheduler action publishes, if any.
pub open spec fn published_event(action: SchedulerAction) -> Option<Event> {
    match action {
        SchedulerAction::PublishTimerExpired => Some(Event::TimerExpired),
        SchedulerAction::Restart => None,
    }
}

/// Read the delay the next wait round must use: always the currently stored
/// value, never a stale one.
pub fn next_wait_secs(state: &AppState) -> (secs: u64)
    ensures
        secs == state.next_update_delay_secs,
{
    state.next_update_delay_secs
}

/// Decide what follows one wait round.
pub fn scheduler_step(outcome: WaitOutcome) -> (action: SchedulerAction)
    ensures
        action == action_for(outcome),
        outcome is TimerElapsed <==> action is PublishTimerExpired,
{
    match outcome {
        WaitOutcome::TimerElapsed => SchedulerAction::PublishTimerExpired,
        WaitOutcome::Interrupted => SchedulerAction::Restart,
    }
}

/// How many rounds of a run ended with the timer fully elapsing.
pub open spec fn elapsed_rounds(outcomes: Seq<WaitOutcome>) -> nat
    decreases outcomes.len(),
{
    if outcomes.len() == 0 {
        0
    } else {
        (if outcomes[0] is TimerElapsed {
            1nat
        } else {
            0nat
        }) + elapsed_rounds(outcomes.drop_first())
    }
}

/// How many `TimerExpired` events a run of rounds publishes.
pub open spec fn expiries_published(outcomes: Seq<WaitOutcome>) -> nat
    decreases outcomes.len(),
{
    if outcomes.len() == 0 {
        0
    } else {
        (if published_event(action_for(outcomes[0])) is Some {
            1nat
        } else {
            0nat
        }) + expiries_published(outcomes.drop_first())
    }
}

/// No spurious expiry: over any run of wait rounds, the scheduler publishes
/// exactly one `TimerExpired` per fully elapsed wait and none for an
/// interrupted one. An abandoned wait — one cut short because the stored
/// delay changed — therefore never yields an expiry; the loop restarts and
/// `next_wait_secs` reads the newly stored delay for a fresh, full wait.
pub proof fn lemma_no_spurious_expiry(outcomes: Seq<WaitOutcome>)
    ensures
        expiries_published(outcomes) == elapsed_rounds(outcomes),
    decreases outcomes.len(),
{
    if outcomes.len() > 0 {
        lemma_no_spurious_expiry(outcomes.drop_first());
    }
}

} // verus!
