//! Single-slot wake signals.
//!
//! A wake signal is a latch holding at most one pending wake, with no payload
//! and no history: signals issued while one is already pending coalesce into
//! that one wake. A waiter's runtime suspends it until a wake is pending and
//! clears the slot atomically with observing it; `take` is that observation
//! step. The orchestrator triggers every other task through one of these.

use vstd::prelude::*;

verus! {

/// A single-slot, overwrite-coalescing wake latch.
pub struct WakeSignal {
    pending: bool,
}

impl WakeSignal {
    /// Whether a wake is pending.
    pub closed spec fn is_pending(self) -> bool {
        self.pending
    }

    /// Create a latch with no pending wake.
    pub fn new() -> (s: Self)
        ensures
            !s.is_pending(),
    {
        WakeSignal { pending: false }
    }

    /// Issue a wake. Never suspends; while the previous wake is unobserved,
    /// further signals collapse into it.
    pub fn signal(&mut self)
        ensures
            *final(self) == signaled(*old(self)),
            final(self).is_pending(),
    {
        self.pending = true;
    }

    /// Observe a pending wake, if any, clearing the slot with the
    /// observation. A waiter's runtime suspends it while this returns false.
    pub fn take(&mut self) -> (woke: bool)
        ensures
            woke == old(self).is_pending(),
            !final(self).is_pending(),
    {
        let woke = self.pending;
        self.pending = false;
        woke
    }

    /// Read the slot without clearing it.
    pub fn peek(&self) -> (woke: bool)
        ensures
            woke == self.is_pending(),
    {
        self.pending
    }
}

/// The latch state after one `signal`.
pub closed spec fn signaled(s: WakeSignal) -> WakeSignal {
    WakeSignal { pending: true }
}

/// The latch state after `n` consecutive `signal`s.
pub closed spec fn signaled_n(s: WakeSignal, n: nat) -> WakeSignal
    decreases n,
{
    if n == 0 {
        s
    } else {
        signaled(signaled_n(s, (n - 1) as nat))
    }
}

/// Coalescing: a signal set any number of times at least once before being
/// waited on leaves exactly one pending wake — the same latch state as a
/// single signal — so one `take` observes one wake and clears the slot, and a
/// second `take` observes nothing until the latch is signaled again.
pub proof fn lemma_signals_coalesce(s: WakeSignal, n: nat)
    requires
        n >= 1,
    ensures
        signaled_n(s, n) == signaled(s),
        signaled_n(s, n).is_pending(),
    decreases n,
{
    if n > 1 {
        lemma_signals_coalesce(s, (n - 1) as nat);
    }
}

/// One wake latch per triggerable task. The orchestrator owns the sending
/// side; each task's loop waits on its own latch.
pub struct TaskSignals {
    /// Wakes the display task to render the downloaded image.
    pub display_update: WakeSignal,
    /// Wakes the network task to run one connect-download-disconnect cycle.
    pub network_update: WakeSignal,
    /// Wakes the network task to blink the LED without touching the link.
    pub led_blink: WakeSignal,
    /// Interrupts the scheduler's wait so it restarts with the stored delay.
    pub scheduler_interrupt: WakeSignal,
    /// Wakes the battery task for an on-demand measurement.
    pub battery_measure: WakeSignal,
    /// Set once the first battery measurement completes (startup barrier).
    pub battery_ready: WakeSignal,
}

impl TaskSignals {
    /// Create all latches with no pending wake.
    pub fn new() -> (s: Self)
        ensures
            !s.display_update.is_pending(),
            !s.network_update.is_pending(),
            !s.led_blink.is_pending(),
            !s.scheduler_interrupt.is_pending(),
            !s.battery_measure.is_pending(),
            !s.battery_ready.is_pending(),
    {
        TaskSignals {
            display_update: WakeSignal::new(),
            network_update: WakeSignal::new(),
            led_blink: WakeSignal::new(),
            scheduler_interrupt: WakeSignal::new(),
            battery_measure: WakeSignal::new(),
            battery_ready: WakeSignal::new(),
        }
    }
}

/// Signals the display task to update the panel.
pub fn signal_display_update(signals: &mut TaskSignals)
    ensures
        final(signals).display_update == signaled(old(signals).display_update),
        final(signals).display_update.is_pending(),
        final(signals).network_update == old(signals).network_update,
        final(signals).led_blink == old(signals).led_blink,
        final(signals).scheduler_interrupt == old(signals).scheduler_interrupt,
        final(signals).battery_measure == old(signals).battery_measure,
        final(signals).battery_ready == old(signals).battery_ready,
{
    signals.display_update.signal();
}

/// Signals the network task to start an update cycle.
pub fn signal_network_update(signals: &mut TaskSignals)
    ensures
        final(signals).network_update == signaled(old(signals).network_update),
        final(signals).network_update.is_pending(),
        final(signals).display_update == old(signals).display_update,
        final(signals).led_blink == old(signals).led_blink,
        final(signals).scheduler_interrupt == old(signals).scheduler_interrupt,
        final(signals).battery_measure == old(signals).battery_measure,
        final(signals).battery_ready == old(signals).battery_ready,
{
    signals.network_update.signal();
}

/// Signals the network task to blink the LED.
pub fn signal_led_blink(signals: &mut TaskSignals)
    ensures
        final(signals).led_blink == signaled(old(signals).led_blink),
        final(signals).led_blink.is_pending(),
        final(signals).display_update == old(signals).display_update,
        final(signals).network_update == old(signals).network_update,
        final(signals).scheduler_interrupt == old(signals).scheduler_interrupt,
        final(signals).battery_measure == old(signals).battery_measure,
        final(signals).battery_ready == old(signals).battery_ready,
{
    signals.led_blink.signal();
}

/// Signals the scheduler to restart its wait with the stored delay.
pub fn signal_scheduler_update(signals: &mut TaskSignals)
    ensures
        final(signals).scheduler_interrupt == signaled(old(signals).scheduler_interrupt),
        final(signals).scheduler_interrupt.is_pending(),
        final(signals).display_update == old(signals).display_update,
        final(signals).network_update == old(signals).network_update,
        final(signals).led_blink == old(signals).led_blink,
        final(signals).battery_measure == old(signals).battery_measure,
        final(signals).battery_ready == old(signals).battery_ready,
{
    signals.scheduler_interrupt.signal();
}

/// Signals the battery task to take an immediate measurement.
pub fn signal_battery_measure(signals: &mut TaskSignals)
    ensures
        final(signals).battery_measure == signaled(old(signals).battery_measure),
        final(signals).battery_measure.is_pending(),
        final(signals).display_update == old(signals).display_update,
        final(signals).network_update == old(signals).network_update,
        final(signals).led_blink == old(signals).led_blink,
        final(signals).scheduler_interrupt == old(signals).scheduler_interrupt,
        final(signals).battery_ready == old(signals).battery_ready,
{
    signals.battery_measure.signal();
}

} // verus!
