//! Network-connection lifecycle and download handling.
//!
//! One externally triggered cycle drives the wireless link up, performs a
//! single image download attempt, drives the link down again, and publishes
//! outcome events; a second trigger kind blinks the LED without touching the
//! link. The radio, IP stack and HTTP transport live in the runtime; the
//! functions here hold every decision of the cycle: the phase machine and
//! its transitions, the unlimited join retry with fixed backoff, the
//! response's header scan and delay parsing, the success test for a
//! download, the atomic delay-update-and-report step, and the bounded
//! disconnect poll.

use vstd::prelude::*;
use crate::config::DEFAULT_UPDATE_DELAY_SECS;
use crate::events::Event;
use crate::state::AppState;

verus! {

/// Exact size of a downloaded image: 600 x 448 pixels at 4 bits per pixel.
pub const IMAGE_BUFFER_SIZE: usize = 134400;

/// HTTP status accepted as success.
pub const HTTP_STATUS_OK: u16 = 200;

/// Seconds waited between wireless join attempts.
pub const JOIN_BACKOFF_SECS: u64 = 1;

/// Milliseconds between polls of the link while disconnecting.
pub const DISCONNECT_POLL_MILLIS: u64 = 100;

/// Greatest number of disconnect polls before giving up waiting for the
/// link to be observed down (about five seconds of budget).
pub const DISCONNECT_POLL_LIMIT: u32 = 50;

/// Number of LED blinks in the blink side-request.
pub const BLINK_COUNT: usize = 5;

/// Milliseconds the LED spends in each on or off phase of a blink.
pub const BLINK_PHASE_MILLIS: u64 = 200;

// ---------------------------------------------------------------------------
// Delay header scan and parse
// ---------------------------------------------------------------------------

/// The ASCII lowercase form of a byte.
pub open spec fn lower_byte(b: u8) -> u8 {
    if 65 <= b <= 90 {
        (b + 32) as u8
    } else {
        b
    }
}

/// The bytes of the delay header's name, already lowercase.
pub open spec fn delay_header_name_byte(i: int) -> u8 {
    if i == 0 {
        120
    } else if i == 1 {
        45
    } else if i == 2 {
        110
    } else if i == 3 {
        101
    } else if i == 4 {
        120
    } else if i == 5 {
        116
    } else if i == 6 {
        45
    } else if i == 7 {
        100
    } else if i == 8 {
        101
    } else if i == 9 {
        108
    } else if i == 10 {
        97
    } else {
        121
    }
}

/// Length of the delay header's name.
pub const DELAY_HEADER_NAME_LEN: usize = 12;

/// Whether a header name is the delay header's, compared case-insensitively
/// over ASCII.
pub open spec fn matches_delay_name(name: Seq<u8>) -> bool {
    name.len() == DELAY_HEADER_NAME_LEN && forall|i: int|
        0 <= i < name.len() ==> lower_byte(name[i]) == delay_header_name_byte(i)
}

/// Whether a byte is an ASCII decimal digit.
pub open spec fn is_digit(b: u8) -> bool {
    48 <= b <= 57
}

/// Whether every byte of a sequence is an ASCII decimal digit.
pub open spec fn all_digits(s: Seq<u8>) -> bool {
    forall|i: int| 0 <= i < s.len() ==> is_digit(#[trigger] s[i])
}

/// The number a sequence of decimal digits denotes.
pub open spec fn decimal_value(s: Seq<u8>) -> nat
    recommends
        all_digits(s),
    decreases s.len(),
{
    if s.len() == 0 {
        0
    } else {
        (decimal_value(s.drop_last()) * 10 + (s.last() - 48)) as nat
    }
}

/// A number may carry one leading plus sign.
pub open spec fn strip_plus(s: Seq<u8>) -> Seq<u8> {
    if s.len() > 0 && s[0] == 43 {
        s.drop_first()
    } else {
        s
    }
}

/// Whether a value parses as an unsigned 64-bit decimal number: after an
/// optional leading plus sign, at least one digit, nothing but digits, and a
/// value in range.
pub open spec fn parses_as_u64(s: Seq<u8>) -> bool {
    strip_plus(s).len() > 0 && all_digits(strip_plus(s)) && decimal_value(strip_plus(s))
        <= u64::MAX
}

/// The delay a header value yields: its number if it parses, nothing if it
/// is malformed (the caller then falls back to the default).
pub open spec fn parsed_delay(s: Seq<u8>) -> Option<u64> {
    if parses_as_u64(s) {
        Some(decimal_value(strip_plus(s)) as u64)
    } else {
        None
    }
}

/// The suggested delay a header list yields: that of the first header whose
/// name matches, or nothing when none matches. Headers after the first name
/// match are not consulted, even if its value is malformed.
pub open spec fn suggested_delay_of(headers: Seq<(Vec<u8>, Vec<u8>)>) -> Option<u64>
    decreases headers.len(),
{
    if headers.len() == 0 {
        None
    } else if matches_delay_name(headers[0].0@) {
        parsed_delay(headers[0].1@)
    } else {
        suggested_delay_of(headers.drop_first())
    }
}

/// ASCII-lowercase one byte.
fn lower_ascii(b: u8) -> (l: u8)
    ensures
        l == lower_byte(b),
{
    if 65 <= b && b <= 90 {
        b + 32
    } else {
        b
    }
}

/// The expected byte at each position of the delay header's name.
fn delay_name_byte(i: usize) -> (b: u8)
    requires
        i < DELAY_HEADER_NAME_LEN,
    ensures
        b == delay_header_name_byte(i as int),
{
    if i == 0 {
        120
    } else if i == 1 {
        45
    } else if i == 2 {
        110
    } else if i == 3 {
        101
    } else if i == 4 {
        120
    } else if i == 5 {
        116
    } else if i == 6 {
        45
    } else if i == 7 {
        100
    } else if i == 8 {
        101
    } else if i == 9 {
        108
    } else if i == 10 {
        97
    } else {
        121
    }
}

/// Whether this header name is the delay header's name, matched
/// case-insensitively.
pub fn is_delay_header_name(name: &Vec<u8>) -> (matches: bool)
    ensures
        matches == matches_delay_name(name@),
{
    if name.len() != DELAY_HEADER_NAME_LEN {
        return false;
    }
    let mut i: usize = 0;
    while i < DELAY_HEADER_NAME_LEN
        invariant
            0 <= i <= DELAY_HEADER_NAME_LEN,
            name@.len() == DELAY_HEADER_NAME_LEN,
            forall|j: int| 0 <= j < i ==> lower_byte(name@[j]) == delay_header_name_byte(j),
        decreases DELAY_HEADER_NAME_LEN - i,
    {
        if lower_ascii(name[i]) != delay_name_byte(i) {
            return false;
        }
        i = i + 1;
    }
    true
}

/// Appending a digit multiplies the denoted number by ten and adds it.
proof fn lemma_decimal_value_push(s: Seq<u8>, b: u8)
    requires
        is_digit(b),
    ensures
        decimal_value(s.push(b)) == decimal_value(s) * 10 + (b - 48),
{
    assert(s.push(b).drop_last() =~= s);
    assert(s.push(b).last() == b);
}

/// For digit strings, every prefix denotes at most the whole.
proof fn lemma_decimal_prefix_le(s: Seq<u8>, k: int)
    requires
        0 <= k <= s.len(),
        all_digits(s),
    ensures
        decimal_value(s.take(k)) <= decimal_value(s),
    decreases s.len() - k,
{
    if k < s.len() {
        lemma_decimal_prefix_le(s, k + 1);
        assert(s.take(k + 1).drop_last() =~= s.take(k));
        assert(is_digit(s[k]));
        assert(s.take(k + 1).last() == s[k]);
        assert(decimal_value(s.take(k + 1)) == decimal_value(s.take(k)) * 10 + (s[k] - 48));
    } else {
        assert(s.take(k) =~= s);
    }
}

/// Parse an unsigned decimal number with an optional leading plus sign.
/// Returns nothing for an empty, non-numeric, or out-of-range value.
pub fn parse_u64_decimal(bytes: &Vec<u8>) -> (parsed: Option<u64>)
    ensures
        parsed == parsed_delay(bytes@),
{
    let n = bytes.len();
    let mut start: usize = 0;
    if n > 0 && bytes[0] == 43 {
        start = 1;
    }
    proof {
        assert(strip_plus(bytes@) =~= bytes@.subrange(start as int, n as int));
    }
    if start >= n {
        return None;
    }
    let ghost digits = bytes@.subrange(start as int, n as int);
    let mut acc: u64 = 0;
    let mut i: usize = start;
    while i < n
        invariant
            start <= i <= n,
            n == bytes@.len(),
            digits == bytes@.subrange(start as int, n as int),
            digits == strip_plus(bytes@),
            all_digits(bytes@.subrange(start as int, i as int)),
            acc == decimal_value(bytes@.subrange(start as int, i as int)),
        decreases n - i,
    {
        let b = bytes[i];
        if b < 48 || b > 57 {
            proof {
                assert(digits[i - start] == bytes@[i as int]);
                assert(!all_digits(digits));
            }
            return None;
        }
        let d = (b - 48) as u64;
        if acc > (u64::MAX - d) / 10 {
            proof {
                let pre = bytes@.subrange(start as int, i as int);
                let ext = bytes@.subrange(start as int, i as int + 1);
                assert(ext =~= pre.push(bytes@[i as int]));
                lemma_decimal_value_push(pre, bytes@[i as int]);
                assert(decimal_value(ext) > u64::MAX);
                if all_digits(digits) {
                    assert(ext =~= digits.take(i - start + 1));
                    lemma_decimal_prefix_le(digits, i - start + 1);
                    assert(decimal_value(digits) > u64::MAX);
                }
            }
            return None;
        }
        acc = acc * 10 + d;
        proof {
            let pre = bytes@.subrange(start as int, i as int);
            let ext = bytes@.subrange(start as int, i as int + 1);
            assert(ext =~= pre.push(bytes@[i as int]));
            lemma_decimal_value_push(pre, bytes@[i as int]);
        }
        i = i + 1;
    }
    proof {
        assert(bytes@.subrange(start as int, n as int) == digits);
    }
    Some(acc)
}

/// Scan a response's headers for the delay header and parse its value: the
/// server's suggested next update delay in seconds, if one was sent and is
/// well formed. Scanning stops at the first name match, as the transport
/// delivers headers in order.
pub fn find_suggested_delay(headers: &Vec<(Vec<u8>, Vec<u8>)>) -> (delay: Option<u64>)
    ensures
        delay == suggested_delay_of(headers@),
{
    let n = headers.len();
    let mut i: usize = 0;
    proof {
        assert(headers@.skip(0) =~= headers@);
    }
    while i < n
        invariant
            0 <= i <= n,
            n == headers@.len(),
            suggested_delay_of(headers@) == suggested_delay_of(headers@.skip(i as int)),
        decreases n - i,
    {
        let pair = &headers[i];
        proof {
            assert(headers@.skip(i as int)[0] == headers@[i as int]);
        }
        if is_delay_header_name(&pair.0) {
            return parse_u64_decimal(&pair.1);
        }
        proof {
            assert(headers@.skip(i as int).drop_first() =~= headers@.skip(i as int + 1));
        }
        i = i + 1;
    }
    proof {
        assert(headers@.skip(n as int) =~= Seq::<(Vec<u8>, Vec<u8>)>::empty());
    }
    None
}

// ---------------------------------------------------------------------------
// Download outcome
// ---------------------------------------------------------------------------

/// What one download attempt came to.
#[derive(Debug, Clone, Copy, PartialEq, Eq)]
pub enum DownloadOutcome {
    /// A 200 response whose body had exactly the expected size, together
    /// with the server's suggested delay, if it sent a well-formed one.
    Success { suggested_delay_secs: Option<u64> },
    /// Transport failure, a non-200 status, or a body of the wrong size.
    Failure,
}

/// Judge a completed HTTP exchange: a download succeeds if and only if the
/// status was 200 and the body had exactly the expected size; a mismatched
/// body size is a failure like any other. The suggested delay rides along
/// only on success.
pub fn evaluate_download(
    status: u16,
    body_len: usize,
    suggested_delay_secs: Option<u64>,
) -> (outcome: DownloadOutcome)
    ensures
        outcome is Success <==> (status == HTTP_STATUS_OK && body_len == IMAGE_BUFFER_SIZE),
        outcome == if status == HTTP_STATUS_OK && body_len == IMAGE_BUFFER_SIZE {
            DownloadOutcome::Success { suggested_delay_secs }
        } else {
            DownloadOutcome::Failure
        },
{
    if status == HTTP_STATUS_OK && body_len == IMAGE_BUFFER_SIZE {
        DownloadOutcome::Success { suggested_delay_secs }
    } else {
        DownloadOutcome::Failure
    }
}

/// The delay stored after a successful download: the server's suggestion,
/// or the compiled-in default when it sent none (or a malformed one).
pub open spec fn delay_after_success(suggested: Option<u64>) -> u64 {
    match suggested {
        Some(secs) => secs,
        None => DEFAULT_UPDATE_DELAY_SECS,
    }
}

/// The events a successful download publishes: the image hand-off, plus a
/// scheduler restart when the stored delay changed.
pub open spec fn success_events(delay_changed: bool) -> Seq<Event> {
    if delay_changed {
        seq![Event::ImageDownloaded, Event::SchedulerUpdateRequested]
    } else {
        seq![Event::ImageDownloaded]
    }
}

/// Apply a download outcome to the shared state, in one critical section,
/// and return the events to publish, in order.
///
/// On success the stored delay is replaced by the server's suggestion (or
/// the default), `last_download_success` is set, and whether the delay
/// changed is judged against the value stored before — the same atomic step
/// that replaces it, so a restart notification is owed exactly when the
/// change happened. On failure only `last_download_success` is cleared and
/// `ImageDownloadFailed` published; the stored delay stays, and the next
/// cycle proceeds on schedule.
pub fn apply_download_outcome(state: &mut AppState, outcome: DownloadOutcome) -> (events:
    Vec<Event>)
    ensures
        outcome matches DownloadOutcome::Success { suggested_delay_secs } ==> {
            &&& final(state).next_update_delay_secs == delay_after_success(suggested_delay_secs)
            &&& final(state).last_download_success
            &&& events@ == success_events(
                old(state).next_update_delay_secs != delay_after_success(suggested_delay_secs),
            )
        },
        outcome is Failure ==> {
            &&& final(state).next_update_delay_secs == old(state).next_update_delay_secs
            &&& !final(state).last_download_success
            &&& events@ == seq![Event::ImageDownloadFailed]
        },
        final(state).battery_percent == old(state).battery_percent,
        final(state).wifi_connected == old(state).wifi_connected,
        old(state).wf() ==> final(state).wf(),
{
    let mut events: Vec<Event> = Vec::new();
    match outcome {
        DownloadOutcome::Success { suggested_delay_secs } => {
            let new_delay = match suggested_delay_secs {
                Some(secs) => secs,
                None => DEFAULT_UPDATE_DELAY_SECS,
            };
            let delay_changed = state.next_update_delay_secs != new_delay;
            state.next_update_delay_secs = new_delay;
            state.last_download_success = true;
            events.push(Event::ImageDownloaded);
            if delay_changed {
                events.push(Event::SchedulerUpdateRequested);
                proof {
                    assert(events@ =~= success_events(true));
                }
            } else {
                proof {
                    assert(events@ =~= success_events(false));
                }
            }
        },
        DownloadOutcome::Failure => {
            state.last_download_success = false;
            events.push(Event::ImageDownloadFailed);
            proof {
                assert(events@ =~= seq![Event::ImageDownloadFailed]);
            }
        },
    }
    events
}

// ---------------------------------------------------------------------------
// Connection lifecycle
// ---------------------------------------------------------------------------

/// The two wakes raced at the top of the idle state.
#[derive(Debug, Clone, Copy, PartialEq, Eq, Structural)]
pub enum NetTrigger {
    /// Run one full connect-download-disconnect cycle.
    Update,
    /// Blink the LED; the connection is not touched.
    Blink,
}

/// Where the lifecycle stands between suspension points.
#[derive(Debug, Clone, Copy, PartialEq, Eq, Structural)]
pub enum NetPhase {
    /// Waiting for a trigger.
    Idle,
    /// Running the LED blink side-request.
    Blinking,
    /// Attempting to join the wireless network.
    Joining,
    /// Joined; waiting for the link to come up.
    AwaitingLink,
    /// Link up; waiting for an address to be assigned.
    AwaitingConfig,
    /// Connected and downloading.
    Connected,
    /// Download finished and applied; driving the link down.
    Disconnecting,
}

/// A completion the runtime hands the lifecycle.
#[derive(Debug, Clone, Copy, PartialEq, Eq, Structural)]
pub enum NetInput {
    /// One of the two wakes won the race at idle.
    Trigger(NetTrigger),
    /// The blink pattern finished.
    BlinkDone,
    /// A join attempt returned.
    JoinResult { joined: bool },
    /// The link is observed up.
    LinkUp,
    /// An address was assigned.
    ConfigUp,
    /// The download attempt returned and its outcome was applied.
    DownloadFinished,
    /// The disconnect sequence completed (link observed down, or the poll
    /// budget ran out).
    DisconnectDone,
}

/// What the runtime must do after a transition.
#[derive(Debug, Clone, Copy, PartialEq, Eq, Structural)]
pub enum NetDirective {
    /// Race the update and blink wakes.
    AwaitTrigger,
    /// Run the blink pattern.
    RunBlink,
    /// Raise radio power and attempt one join.
    AttemptJoin,
    /// Wait the fixed backoff, then attempt one join again.
    BackoffThenJoin,
    /// Wait for the link to come up.
    AwaitLink,
    /// Wait for an address to be assigned.
    AwaitConfig,
    /// Mark the state connected, publish `NetworkConnected`, drop radio
    /// power, and attempt the download.
    ConnectAndDownload,
    /// Apply the download outcome to the state, publish its events, then
    /// run the disconnect sequence.
    ApplyOutcomeAndDisconnect,
    /// Mark the state disconnected, publish `NetworkDisconnected`, and go
    /// back to waiting for a trigger.
    FinishCycle,
    /// The completion cannot occur in this phase; ignore it.
    Ignore,
}

/// The lifecycle's transition table. Triggers run the fixed cycle in order;
/// a blink trigger skips the whole cycle; a failed join retries forever
/// after a fixed backoff, with no cap and no escalation.
pub open spec fn net_transition(phase: NetPhase, input: NetInput) -> (NetPhase, NetDirective) {
    match (phase, input) {
        (NetPhase::Idle, NetInput::Trigger(NetTrigger::Blink)) => (
            NetPhase::Blinking,
            NetDirective::RunBlink,
        ),
        (NetPhase::Idle, NetInput::Trigger(NetTrigger::Update)) => (
            NetPhase::Joining,
            NetDirective::AttemptJoin,
        ),
        (NetPhase::Blinking, NetInput::BlinkDone) => (NetPhase::Idle, NetDirective::AwaitTrigger),
        (NetPhase::Joining, NetInput::JoinResult { joined }) => {
            if joined {
                (NetPhase::AwaitingLink, NetDirective::AwaitLink)
            } else {
                (NetPhase::Joining, NetDirective::BackoffThenJoin)
            }
        },
        (NetPhase::AwaitingLink, NetInput::LinkUp) => (
            NetPhase::AwaitingConfig,
            NetDirective::AwaitConfig,
        ),
        (NetPhase::AwaitingConfig, NetInput::ConfigUp) => (
            NetPhase::Connected,
            NetDirective::ConnectAndDownload,
        ),
        (NetPhase::Connected, NetInput::DownloadFinished) => (
            NetPhase::Disconnecting,
            NetDirective::ApplyOutcomeAndDisconnect,
        ),
        (NetPhase::Disconnecting, NetInput::DisconnectDone) => (
            NetPhase::Idle,
            NetDirective::FinishCycle,
        ),
        (_, _) => (phase, NetDirective::Ignore),
    }
}

/// One lifecycle step: the next phase and what the runtime must do.
pub fn net_step(phase: NetPhase, input: NetInput) -> (step: (NetPhase, NetDirective))
    ensures
        step == net_transition(phase, input),
        (phase is Joining && (input matches NetInput::JoinResult { joined: false })) ==> step
            == (NetPhase::Joining, NetDirective::BackoffThenJoin),
{
    match (phase, input) {
        (NetPhase::Idle, NetInput::Trigger(NetTrigger::Blink)) => (
            NetPhase::Blinking,
            NetDirective::RunBlink,
        ),
        (NetPhase::Idle, NetInput::Trigger(NetTrigger::Update)) => (
            NetPhase::Joining,
            NetDirective::AttemptJoin,
        ),
        (NetPhase::Blinking, NetInput::BlinkDone) => (NetPhase::Idle, NetDirective::AwaitTrigger),
        (NetPhase::Joining, NetInput::JoinResult { joined }) => {
            if joined {
                (NetPhase::AwaitingLink, NetDirective::AwaitLink)
            } else {
                (NetPhase::Joining, NetDirective::BackoffThenJoin)
            }
        },
        (NetPhase::AwaitingLink, NetInput::LinkUp) => (
            NetPhase::AwaitingConfig,
            NetDirective::AwaitConfig,
        ),
        (NetPhase::AwaitingConfig, NetInput::ConfigUp) => (
            NetPhase::Connected,
            NetDirective::ConnectAndDownload,
        ),
        (NetPhase::Connected, NetInput::DownloadFinished) => (
            NetPhase::Disconnecting,
            NetDirective::ApplyOutcomeAndDisconnect,
        ),
        (NetPhase::Disconnecting, NetInput::DisconnectDone) => (
            NetPhase::Idle,
            NetDirective::FinishCycle,
        ),
        (phase, _) => (phase, NetDirective::Ignore),
    }
}

/// A blink never touches the connection: from idle, a blink trigger leads
/// back to idle through the blink phase alone, with no join, link, config,
/// download, or disconnect directive on the way.
pub proof fn lemma_blink_skips_connection()
    ensures
        net_transition(NetPhase::Idle, NetInput::Trigger(NetTrigger::Blink)) == (
            NetPhase::Blinking,
            NetDirective::RunBlink,
        ),
        net_transition(NetPhase::Blinking, NetInput::BlinkDone) == (
            NetPhase::Idle,
            NetDirective::AwaitTrigger,
        ),
{
}

/// Mark the link up in the shared state; the event to publish with it.
pub fn mark_connected(state: &mut AppState) -> (event: Event)
    ensures
        final(state).wifi_connected,
        final(state).next_update_delay_secs == old(state).next_update_delay_secs,
        final(state).battery_percent == old(state).battery_percent,
        final(state).last_download_success == old(state).last_download_success,
        old(state).wf() ==> final(state).wf(),
        event == Event::NetworkConnected,
{
    state.set_wifi_connected(true);
    Event::NetworkConnected
}

/// Mark the link down in the shared state; the event to publish with it.
/// Always runs at the end of a cycle, whatever the download came to and
/// whether or not the disconnect poll ran out of budget.
pub fn mark_disconnected(state: &mut AppState) -> (event: Event)
    ensures
        !final(state).wifi_connected,
        final(state).next_update_delay_secs == old(state).next_update_delay_secs,
        final(state).battery_percent == old(state).battery_percent,
        final(state).last_download_success == old(state).last_download_success,
        old(state).wf() ==> final(state).wf(),
        event == Event::NetworkDisconnected,
{
    state.set_wifi_connected(false);
    Event::NetworkDisconnected
}

/// What the disconnect wait does next.
#[derive(Debug, Clone, Copy, PartialEq, Eq, Structural)]
pub enum PollVerdict {
    /// Link and configuration are both observed down: the wait is over.
    Done,
    /// Still up; poll again after the fixed interval.
    Wait,
    /// Budget exhausted with the link still up: log and stop waiting — a
    /// stuck-down wait must not block the device forever.
    GiveUp,
}

/// Decide one round of the bounded disconnect poll, given how many polls
/// have run and what the stack reports. The wait ends — one way or the
/// other — after at most `DISCONNECT_POLL_LIMIT` polls.
pub fn disconnect_poll_action(polls: u32, link_up: bool, config_up: bool) -> (verdict: PollVerdict)
    ensures
        verdict is Done <==> (!link_up && !config_up),
        verdict is GiveUp <==> ((link_up || config_up) && polls >= DISCONNECT_POLL_LIMIT),
        verdict is Wait <==> ((link_up || config_up) && polls < DISCONNECT_POLL_LIMIT),
{
    if !link_up && !config_up {
        PollVerdict::Done
    } else if polls >= DISCONNECT_POLL_LIMIT {
        PollVerdict::GiveUp
    } else {
        PollVerdict::Wait
    }
}

/// The LED blink pattern: on and off phases, in order, each with its
/// duration in milliseconds — five blinks of 200 ms on, 200 ms off.
pub fn blink_pattern() -> (pattern: Vec<(bool, u64)>)
    ensures
        pattern@.len() == 2 * BLINK_COUNT,
        forall|i: int| 0 <= i < pattern@.len() ==> #[trigger] pattern@[i] == (
            i % 2 == 0,
            BLINK_PHASE_MILLIS,
        ),
{
    let mut pattern: Vec<(bool, u64)> = Vec::new();
    let mut blink: usize = 0;
    while blink < BLINK_COUNT
        invariant
            0 <= blink <= BLINK_COUNT,
            pattern@.len() == 2 * blink,
            forall|i: int| 0 <= i < pattern@.len() ==> #[trigger] pattern@[i] == (
                i % 2 == 0,
                BLINK_PHASE_MILLIS,
            ),
        decreases BLINK_COUNT - blink,
    {
        pattern.push((true, BLINK_PHASE_MILLIS));
        pattern.push((false, BLINK_PHASE_MILLIS));
        blink = blink + 1;
    }
    pattern
}

} // verus!
