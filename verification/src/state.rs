//! Shared application state record.
//!
//! One record of cross-cutting runtime facts, created at boot and kept for the
//! process lifetime. Tasks exchange data values only through this record; the
//! surrounding runtime guards it with a mutual-exclusion wrapper and applies
//! each operation below as one whole-record critical section.

use vstd::prelude::*;

verus! {

/// Shared application state.
pub struct AppState {
    /// Delay in seconds until the next scheduled update. May be replaced by a
    /// server-suggested value after a successful download.
    pub next_update_delay_secs: u64,
    /// Battery charge, 0 to 100 percent.
    pub battery_percent: u8,
    /// Whether the wireless link is currently up.
    pub wifi_connected: bool,
    /// Whether the most recent download attempt succeeded.
    pub last_download_success: bool,
}

impl AppState {
    /// The record's invariant: the battery charge is a percentage.
    pub open spec fn wf(self) -> bool {
        self.battery_percent <= 100
    }

    /// Create the boot-time state: the configured default update cadence,
    /// zero battery reading, link down, no download performed yet.
    pub fn new(default_update_interval_minutes: u32) -> (s: Self)
        ensures
            s.next_update_delay_secs == default_update_interval_minutes as u64 * 60,
            s.battery_percent == 0,
            !s.wifi_connected,
            !s.last_download_success,
            s.wf(),
    {
        Self {
            next_update_delay_secs: default_update_interval_minutes as u64 * 60,
            battery_percent: 0,
            wifi_connected: false,
            last_download_success: false,
        }
    }

    /// Record a fresh battery measurement. Only the battery field changes.
    pub fn set_battery_percent(&mut self, percent: u8)
        requires
            percent <= 100,
        ensures
            final(self).battery_percent == percent,
            final(self).next_update_delay_secs == old(self).next_update_delay_secs,
            final(self).wifi_connected == old(self).wifi_connected,
            final(self).last_download_success == old(self).last_download_success,
            final(self).wf(),
    {
        self.battery_percent = percent;
    }

    /// Record whether the wireless link is up. Only the link field changes.
    pub fn set_wifi_connected(&mut self, connected: bool)
        ensures
            final(self).wifi_connected == connected,
            final(self).next_update_delay_secs == old(self).next_update_delay_secs,
            final(self).battery_percent == old(self).battery_percent,
            final(self).last_download_success == old(self).last_download_success,
            old(self).wf() ==> final(self).wf(),
    {
        self.wifi_connected = connected;
    }
}

} // verus!
