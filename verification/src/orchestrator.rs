//! The orchestrator: the event bus's single consumer.
//!
//! The orchestrator loops receiving events and maps each to exactly one
//! reaction — a wake of one other task, or no reaction at all. It keeps no
//! state of its own. On process start, before consuming any event, it issues
//! one network-update wake to bootstrap the first cycle.

use vstd::prelude::*;
use crate::events::Event;
use crate::wake::TaskSignals;
use crate::wake::signal_battery_measure;
use crate::wake::signal_display_update;
use crate::wake::signal_led_blink;
use crate::wake::signal_network_update;
use crate::wake::signal_scheduler_update;

verus! {

/// The reaction the orchestrator takes to one event.
#[derive(Debug, Clone, Copy, PartialEq, Eq, Structural)]
pub enum Reaction {
    /// Wake the network task for a full update cycle.
    WakeNetworkUpdate,
    /// Wake the battery task for an on-demand measurement.
    WakeBatteryMeasure,
    /// Wake the network task for an LED blink.
    WakeLedBlink,
    /// Wake the display task to render the downloaded image.
    WakeDisplay,
    /// Wake the scheduler to restart its wait.
    WakeScheduler,
    /// Observe the event and do nothing.
    Observe,
}

/// The orchestrator's dispatch table.
pub open spec fn reaction_for(event: Event) -> Reaction {
    match event {
        Event::Key0Pressed => Reaction::WakeNetworkUpdate,
        Event::Key1Pressed => Reaction::WakeBatteryMeasure,
        Event::Key2Pressed => Reaction::WakeLedBlink,
        Event::TimerExpired => Reaction::WakeNetworkUpdate,
        Event::NetworkConnected => Reaction::Observe,
        Event::NetworkDisconnected => Reaction::Observe,
        Event::ImageDownloaded => Reaction::WakeDisplay,
        Event::ImageDownloadFailed => Reaction::Observe,
        Event::SchedulerUpdateRequested => Reaction::WakeScheduler,
    }
}

/// Map one event to its reaction. Total: every event variant has a defined
/// reaction regardless of why it was raised.
pub fn dispatch(event: Event) -> (reaction: Reaction)
    ensures
        reaction == reaction_for(event),
{
    match event {
        Event::Key0Pressed => Reaction::WakeNetworkUpdate,
        Event::Key1Pressed => Reaction::WakeBatteryMeasure,
        Event::Key2Pressed => Reaction::WakeLedBlink,
        Event::TimerExpired => Reaction::WakeNetworkUpdate,
        Event::NetworkConnected => Reaction::Observe,
        Event::NetworkDisconnected => Reaction::Observe,
        Event::ImageDownloaded => Reaction::WakeDisplay,
        Event::ImageDownloadFailed => Reaction::Observe,
        Event::SchedulerUpdateRequested => Reaction::WakeScheduler,
    }
}

/// Which signals a reaction leaves pending, given what was pending before.
pub open spec fn signals_after_reaction(reaction: Reaction, s: TaskSignals) -> TaskSignals {
    match reaction {
        Reaction::WakeNetworkUpdate => TaskSignals {
            network_update: crate::wake::signaled(s.network_update),
            ..s
        },
        Reaction::WakeBatteryMeasure => TaskSignals {
            battery_measure: crate::wake::signaled(s.battery_measure),
            ..s
        },
        Reaction::WakeLedBlink => TaskSignals { led_blink: crate::wake::signaled(s.led_blink), ..s },
        Reaction::WakeDisplay => TaskSignals {
            display_update: crate::wake::signaled(s.display_update),
            ..s
        },
        Reaction::WakeScheduler => TaskSignals {
            scheduler_interrupt: crate::wake::signaled(s.scheduler_interrupt),
            ..s
        },
        Reaction::Observe => s,
    }
}

/// Perform a reaction: issue the one wake it names, touching no other latch.
pub fn apply_reaction(reaction: Reaction, signals: &mut TaskSignals)
    ensures
        *final(signals) == signals_after_reaction(reaction, *old(signals)),
{
    match reaction {
        Reaction::WakeNetworkUpdate => signal_network_update(signals),
        Reaction::WakeBatteryMeasure => signal_battery_measure(signals),
        Reaction::WakeLedBlink => signal_led_blink(signals),
        Reaction::WakeDisplay => signal_display_update(signals),
        Reaction::WakeScheduler => signal_scheduler_update(signals),
        Reaction::Observe => {},
    }
}

/// The orchestrator's loop body for one received event: dispatch it and
/// perform the reaction.
pub fn handle_event(event: Event, signals: &mut TaskSignals) -> (reaction: Reaction)
    ensures
        reaction == reaction_for(event),
        *final(signals) == signals_after_reaction(reaction_for(event), *old(signals)),
{
    let reaction = dispatch(event);
    apply_reaction(reaction, signals);
    reaction
}

/// Image hand-off ordering: handling an event leaves a display wake
/// pending only if one was already pending or the event was
/// `ImageDownloaded` — which the network task publishes only after the
/// image buffer is fully written. The display task is therefore never woken
/// toward a buffer still being written, without any lock on the buffer.
pub proof fn lemma_display_wake_needs_downloaded(event: Event, signals: TaskSignals)
    ensures
        signals_after_reaction(reaction_for(event), signals).display_update.is_pending() ==> (
        signals.display_update.is_pending() || event == Event::ImageDownloaded),
{
}

/// The orchestrator's startup step: one implicit network-update wake, so the
/// first cycle runs without waiting for a button press or timer.
pub fn bootstrap(signals: &mut TaskSignals)
    ensures
        *final(signals) == signals_after_reaction(
            Reaction::WakeNetworkUpdate,
            *old(signals),
        ),
{
    signal_network_update(signals);
}

} // verus!
