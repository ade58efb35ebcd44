//! Compiled-in configuration values.

use vstd::prelude::*;

verus! {

/// Default update cadence in minutes, used at boot and whenever a download
/// response carries no usable delay suggestion.
pub const UPDATE_INTERVAL_MINUTES: u32 = 30;

/// Default update cadence in seconds.
pub const DEFAULT_UPDATE_DELAY_SECS: u64 = 1800;

/// The two defaults agree.
pub proof fn lemma_default_delay_consistent()
    ensures
        DEFAULT_UPDATE_DELAY_SECS == UPDATE_INTERVAL_MINUTES as u64 * 60,
{
}

} // verus!
