//! Battery sampling, filtering, and conversion.
//!
//! The battery task collects up to nine raw ADC samples per measurement,
//! takes their median to reject transient noise, converts the median reading
//! through the ADC reference and the board's voltage divider to a battery
//! voltage, and maps that voltage linearly onto a percentage. Sampler
//! failures are tolerated: a measurement proceeds with however many samples
//! succeeded, and a measurement with no valid sample reports zero percent.
//! Voltages are carried as integer millivolts throughout.
//!
//! The ADC reads and the delays around them belong to the runtime; the
//! functions here take the collected raw samples and produce the percentage
//! to store.

use vstd::prelude::*;
use vstd::relations::sorted_by;
use vstd::relations::total_ordering;
use vstd::seq_lib::lemma_sorted_unique;
use vstd::assert_multisets_equal;
use crate::state::AppState;

verus! {

/// Number of raw samples requested per measurement.
pub const SAMPLE_COUNT: usize = 9;

/// Delay between consecutive samples, in milliseconds.
pub const SAMPLE_DELAY_MILLIS: u64 = 5;

/// Stabilization delay before the first sample, in microseconds.
pub const STABILIZE_MICROS: u64 = 100;

/// Seconds between unprompted periodic measurements.
pub const PERIODIC_MEASURE_SECS: u64 = 300;

/// ADC reference voltage in millivolts.
pub const ADC_REF_MILLIVOLTS: u64 = 3300;

/// ADC resolution: 12 bits.
pub const ADC_LEVELS: u64 = 4096;

/// The board divides the battery voltage by 3.2 before the ADC pin:
/// the true voltage is the pin voltage times 16/5.
pub const DIVIDER_NUM: u64 = 16;

/// Denominator of the divider ratio.
pub const DIVIDER_DEN: u64 = 5;

/// Battery voltage reported as empty, in millivolts.
pub const EMPTY_MILLIVOLTS: u64 = 3000;

/// Battery voltage reported as full, in millivolts.
pub const FULL_MILLIVOLTS: u64 = 4200;

/// The ordering by which samples are sorted.
pub open spec fn le_u16() -> spec_fn(u16, u16) -> bool {
    |x: u16, y: u16| x <= y
}

/// `<=` totally orders the samples.
pub proof fn lemma_le_u16_total_ordering()
    ensures
        total_ordering(le_u16()),
{
    let leq = le_u16();
    assert forall|x: u16, y: u16| x != y implies #[trigger] leq(x, y) || #[trigger] leq(y, x) by {}
    assert forall|x: u16, y: u16| #[trigger] leq(x, y) || #[trigger] leq(y, x) by {}
}

/// The median of a non-empty sample collection: the middle element of the
/// samples in sorted order.
pub open spec fn median_of(s: Seq<u16>) -> u16
    recommends
        s.len() > 0,
{
    s.sort_by(le_u16())[s.len() as int / 2]
}

/// The battery voltage in millivolts that a raw ADC reading stands for:
/// the reading scaled by the ADC reference over its resolution, times the
/// divider ratio.
pub open spec fn millivolts_of(raw: u16) -> u64 {
    ((raw as int * ADC_REF_MILLIVOLTS * DIVIDER_NUM) / (ADC_LEVELS * DIVIDER_DEN) as int) as u64
}

/// The percentage a battery voltage maps to: 0 at or below the empty
/// threshold, 100 at or above the full threshold, linear in between.
pub open spec fn percent_of(millivolts: u64) -> u8 {
    if millivolts >= FULL_MILLIVOLTS {
        100
    } else if millivolts <= EMPTY_MILLIVOLTS {
        0
    } else {
        (((millivolts - EMPTY_MILLIVOLTS) * 100) / (FULL_MILLIVOLTS - EMPTY_MILLIVOLTS)) as u8
    }
}

/// Swapping two elements leaves the multiset of a sequence unchanged.
proof fn lemma_swap_preserves_multiset(s: Seq<u16>, i: int, j: int)
    requires
        0 <= i < s.len(),
        0 <= j < s.len(),
        i != j,
    ensures
        s.update(i, s[j]).update(j, s[i]).to_multiset() == s.to_multiset(),
{
    broadcast use vstd::seq_lib::to_multiset_update;
    broadcast use vstd::multiset::group_multiset_axioms;
    broadcast use vstd::seq_lib::group_to_multiset_ensures;

    let s1 = s.update(i, s[j]);
    let s2 = s1.update(j, s[i]);
    assert(s1[j] == s[j]);
    assert(s1.to_multiset() == s.to_multiset().insert(s[j]).remove(s[i]));
    assert(s2.to_multiset() == s1.to_multiset().insert(s[i]).remove(s[j]));
    assert(s.contains(s[i]));
    assert(s.to_multiset().count(s[i]) > 0);
    assert_multisets_equal!(s2.to_multiset(), s.to_multiset());
}

/// Sort the collected samples in place, ascending.
pub fn sort_samples(samples: &mut Vec<u16>)
    ensures
        final(samples)@.len() == old(samples)@.len(),
        final(samples)@.to_multiset() == old(samples)@.to_multiset(),
        sorted_by(final(samples)@, le_u16()),
{
    let ghost orig = samples@;
    let n = samples.len();
    let mut i: usize = 1;
    while i < n
        invariant
            1 <= i,
            n == samples@.len(),
            samples@.to_multiset() == orig.to_multiset(),
            i <= n || n == 0,
            forall|k: int, l: int| 0 <= k < l < i ==> samples@[k] <= samples@[l],
        decreases n - i,
    {
        let mut j: usize = i;
        while j > 0 && samples[j - 1] > samples[j]
            invariant
                0 <= j <= i < n,
                n == samples@.len(),
                samples@.to_multiset() == orig.to_multiset(),
                forall|k: int, l: int| 0 <= k < l <= i && l != j ==> samples@[k] <= samples@[l],
            decreases j,
        {
            let ghost before = samples@;
            let a = samples[j - 1];
            let b = samples[j];
            samples[j - 1] = b;
            samples[j] = a;
            proof {
                assert(samples@ == before.update(j - 1, before[j as int]).update(
                    j as int,
                    before[j - 1],
                ));
                lemma_swap_preserves_multiset(before, j - 1, j as int);
            }
            j = j - 1;
        }
        i = i + 1;
    }
    proof {
        assert forall|k: int, l: int| 0 <= k < l < samples@.len() implies (le_u16())(
            samples@[k],
            samples@[l],
        ) by {
            assert(samples@[k] <= samples@[l]);
        }
    }
}

/// The middle element of the samples in sorted order. Rejects outliers: up
/// to half the samples may be corrupted in either direction without moving
/// the result beyond the range of the sound ones.
pub fn median_sample(samples: &Vec<u16>) -> (median: u16)
    requires
        samples@.len() > 0,
    ensures
        median == median_of(samples@),
{
    let mut sorted = samples.clone();
    sort_samples(&mut sorted);
    proof {
        lemma_le_u16_total_ordering();
        samples@.lemma_sort_by_ensures(le_u16());
        lemma_sorted_unique(sorted@, samples@.sort_by(le_u16()), le_u16());
        assert(sorted@ == samples@.sort_by(le_u16()));
    }
    sorted[sorted.len() / 2]
}

/// Convert a raw ADC reading to the battery voltage it stands for, in
/// millivolts.
pub fn battery_millivolts(raw: u16) -> (millivolts: u64)
    ensures
        millivolts == millivolts_of(raw),
{
    (raw as u64 * ADC_REF_MILLIVOLTS * DIVIDER_NUM) / (ADC_LEVELS * DIVIDER_DEN)
}

/// Map a battery voltage to a charge percentage: 0 at or below the empty
/// threshold, 100 at or above the full threshold, linear interpolation
/// between the two, never outside 0 to 100.
pub fn battery_percent(millivolts: u64) -> (percent: u8)
    ensures
        percent == percent_of(millivolts),
        millivolts <= EMPTY_MILLIVOLTS ==> percent == 0,
        millivolts >= FULL_MILLIVOLTS ==> percent == 100,
        percent <= 100,
{
    if millivolts >= FULL_MILLIVOLTS {
        100
    } else if millivolts <= EMPTY_MILLIVOLTS {
        0
    } else {
        (((millivolts - EMPTY_MILLIVOLTS) * 100) / (FULL_MILLIVOLTS - EMPTY_MILLIVOLTS)) as u8
    }
}

/// One whole measurement from the raw samples that succeeded: the median
/// reading converted to a voltage and mapped to a percentage; zero percent
/// when no sample succeeded.
pub fn measure_from_samples(samples: &Vec<u16>) -> (percent: u8)
    ensures
        samples@.len() == 0 ==> percent == 0,
        samples@.len() > 0 ==> percent == percent_of(millivolts_of(median_of(samples@))),
        percent <= 100,
{
    if samples.len() == 0 {
        0
    } else {
        let median = median_sample(samples);
        let millivolts = battery_millivolts(median);
        battery_percent(millivolts)
    }
}

/// Store a completed measurement: only the battery field of the shared state
/// changes.
pub fn store_measurement(state: &mut AppState, percent: u8)
    requires
        percent <= 100,
    ensures
        final(state).battery_percent == percent,
        final(state).next_update_delay_secs == old(state).next_update_delay_secs,
        final(state).wifi_connected == old(state).wifi_connected,
        final(state).last_download_success == old(state).last_download_success,
        final(state).wf(),
{
    state.set_battery_percent(percent);
}

/// One whole measurement round against the shared state: with at least one
/// valid sample, the filtered percentage replaces the stored reading; with
/// none, the state is left untouched and the previous reading is retained.
pub fn apply_measurement(state: &mut AppState, samples: &Vec<u16>)
    ensures
        samples@.len() == 0 ==> *final(state) == *old(state),
        samples@.len() > 0 ==> final(state).battery_percent == percent_of(
            millivolts_of(median_of(samples@)),
        ),
        final(state).next_update_delay_secs == old(state).next_update_delay_secs,
        final(state).wifi_connected == old(state).wifi_connected,
        final(state).last_download_success == old(state).last_download_success,
        samples@.len() > 0 ==> final(state).wf(),
        old(state).wf() ==> final(state).wf(),
{
    if samples.len() > 0 {
        let percent = measure_from_samples(samples);
        store_measurement(state, percent);
    }
}

} // verus!
