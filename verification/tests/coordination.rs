use frame_core::buttons::{button_event, watch_step, Button, WatchInput, WatchPhase};
use frame_core::events::{Event, EventBus, EVENT_QUEUE_CAPACITY};
use frame_core::network::{
    apply_download_outcome, evaluate_download, find_suggested_delay, mark_connected,
    mark_disconnected, net_step, DownloadOutcome, NetDirective, NetInput, NetPhase, NetTrigger,
};
use frame_core::orchestrator::{bootstrap, dispatch, handle_event, Reaction};
use frame_core::scheduler::{next_wait_secs, scheduler_step, SchedulerAction, WaitOutcome};
use frame_core::state::AppState;
use frame_core::wake::{
    signal_battery_measure, signal_display_update, signal_led_blink, signal_network_update,
    signal_scheduler_update, TaskSignals, WakeSignal,
};

#[test]
fn bus_keeps_fifo_order_across_interleaved_producers() {
    // Two producers, their publishes interleaved arbitrarily: every event
    // comes out exactly once, and each producer's own events in their
    // original order.
    let mut bus = EventBus::new();
    let producer_a = [Event::Key0Pressed, Event::TimerExpired];
    let producer_b = [Event::Key1Pressed, Event::ImageDownloaded];
    assert!(bus.try_publish(producer_a[0]));
    assert!(bus.try_publish(producer_b[0]));
    assert!(bus.try_publish(producer_b[1]));
    assert!(bus.try_publish(producer_a[1]));
    let mut received = Vec::new();
    while let Some(event) = bus.try_receive() {
        received.push(event);
    }
    assert_eq!(
        received,
        vec![
            Event::Key0Pressed,
            Event::Key1Pressed,
            Event::ImageDownloaded,
            Event::TimerExpired
        ]
    );
    // Producer A's subsequence is [Key0Pressed, TimerExpired], in order.
    let a_positions: Vec<usize> = received
        .iter()
        .enumerate()
        .filter(|(_, e)| producer_a.contains(e))
        .map(|(i, _)| i)
        .collect();
    assert_eq!(received[a_positions[0]], producer_a[0]);
    assert_eq!(received[a_positions[1]], producer_a[1]);
}

#[test]
fn bus_applies_backpressure_at_capacity() {
    let mut bus = EventBus::new();
    for _ in 0..EVENT_QUEUE_CAPACITY {
        assert!(bus.has_room());
        assert!(bus.try_publish(Event::TimerExpired));
    }
    assert_eq!(bus.len(), 10);
    // A full queue refuses the publish (the runtime would suspend the
    // producer and retry); nothing is dropped.
    assert!(!bus.has_room());
    assert!(!bus.try_publish(Event::Key0Pressed));
    assert_eq!(bus.len(), 10);
    assert_eq!(bus.try_receive(), Some(Event::TimerExpired));
    assert!(bus.try_publish(Event::Key0Pressed));
    assert_eq!(bus.len(), 10);
}

#[test]
fn bus_receive_on_empty_returns_nothing() {
    let mut bus = EventBus::new();
    assert_eq!(bus.try_receive(), None);
    assert_eq!(bus.len(), 0);
}

#[test]
fn wake_signal_coalesces_repeated_signals() {
    // Set three times before being waited on: exactly one wake observed.
    let mut signal = WakeSignal::new();
    signal.signal();
    signal.signal();
    signal.signal();
    assert!(signal.take());
    assert!(!signal.take());
    // Setting it again after observation produces exactly one more wake.
    signal.signal();
    assert!(signal.take());
    assert!(!signal.take());
}

#[test]
fn task_signal_functions_touch_only_their_latch() {
    let mut signals = TaskSignals::new();
    signal_display_update(&mut signals);
    assert!(signals.display_update.peek());
    assert!(!signals.network_update.peek());
    assert!(!signals.led_blink.peek());
    assert!(!signals.scheduler_interrupt.peek());
    assert!(!signals.battery_measure.peek());
    assert!(!signals.battery_ready.peek());
    let mut signals = TaskSignals::new();
    signal_network_update(&mut signals);
    assert!(signals.network_update.peek());
    assert!(!signals.display_update.peek());
    let mut signals = TaskSignals::new();
    signal_led_blink(&mut signals);
    assert!(signals.led_blink.peek());
    let mut signals = TaskSignals::new();
    signal_scheduler_update(&mut signals);
    assert!(signals.scheduler_interrupt.peek());
    let mut signals = TaskSignals::new();
    signal_battery_measure(&mut signals);
    assert!(signals.battery_measure.peek());
}

#[test]
fn dispatch_table_is_total() {
    assert_eq!(dispatch(Event::Key0Pressed), Reaction::WakeNetworkUpdate);
    assert_eq!(dispatch(Event::Key1Pressed), Reaction::WakeBatteryMeasure);
    assert_eq!(dispatch(Event::Key2Pressed), Reaction::WakeLedBlink);
    assert_eq!(dispatch(Event::TimerExpired), Reaction::WakeNetworkUpdate);
    assert_eq!(dispatch(Event::NetworkConnected), Reaction::Observe);
    assert_eq!(dispatch(Event::NetworkDisconnected), Reaction::Observe);
    assert_eq!(dispatch(Event::ImageDownloaded), Reaction::WakeDisplay);
    assert_eq!(dispatch(Event::ImageDownloadFailed), Reaction::Observe);
    assert_eq!(
        dispatch(Event::SchedulerUpdateRequested),
        Reaction::WakeScheduler
    );
}

#[test]
fn bootstrap_wakes_network_task() {
    let mut signals = TaskSignals::new();
    bootstrap(&mut signals);
    assert!(signals.network_update.peek());
    assert!(!signals.display_update.peek());
}

#[test]
fn scheduler_restarts_with_fresh_delay_after_interrupt() {
    // A 600-second wait is in progress when the stored delay changes to 60:
    // the interrupted wait publishes nothing, and the next wait reads 60,
    // counted from the restart.
    let mut state = AppState::new(10);
    assert_eq!(next_wait_secs(&state), 600);
    // The wait raced against the interrupt; the interrupt fired first.
    state.next_update_delay_secs = 60;
    let action = scheduler_step(WaitOutcome::Interrupted);
    assert_eq!(action, SchedulerAction::Restart);
    // The loop restarts: a fresh, full wait of the newly stored delay.
    assert_eq!(next_wait_secs(&state), 60);
    // Only a fully elapsed wait publishes the expiry.
    let action = scheduler_step(WaitOutcome::TimerElapsed);
    assert_eq!(action, SchedulerAction::PublishTimerExpired);
}

#[test]
fn debounce_discards_contact_bounce() {
    // Falling edge, then a rising edge within 10 ms: when the 50 ms window
    // elapses the input is no longer low, so no event is produced and the
    // watcher goes back to racing all three inputs.
    let (phase, event) = watch_step(WatchPhase::Racing, WatchInput::FallingEdge(Button::Key0));
    assert_eq!(phase, WatchPhase::Settling(Button::Key0));
    assert_eq!(event, None);
    let (phase, event) = watch_step(
        phase,
        WatchInput::DebounceElapsed {
            still_pressed: false,
        },
    );
    assert_eq!(phase, WatchPhase::Racing);
    assert_eq!(event, None);
}

#[test]
fn debounce_reports_one_event_per_surviving_press() {
    let (phase, event) = watch_step(WatchPhase::Racing, WatchInput::FallingEdge(Button::Key2));
    assert_eq!(phase, WatchPhase::Settling(Button::Key2));
    assert_eq!(event, None);
    let (phase, event) = watch_step(
        phase,
        WatchInput::DebounceElapsed { still_pressed: true },
    );
    assert_eq!(phase, WatchPhase::AwaitingRelease(Button::Key2));
    assert_eq!(event, None);
    // The event comes only on release, however long the button was held.
    let (phase, event) = watch_step(phase, WatchInput::RisingEdge);
    assert_eq!(phase, WatchPhase::Racing);
    assert_eq!(event, Some(Event::Key2Pressed));
}

#[test]
fn button_events_map_one_to_one() {
    assert_eq!(button_event(Button::Key0), Event::Key0Pressed);
    assert_eq!(button_event(Button::Key1), Event::Key1Pressed);
    assert_eq!(button_event(Button::Key2), Event::Key2Pressed);
}

#[test]
fn end_to_end_update_cycle() {
    // Key0 press -> orchestrator wakes the network task -> the task joins,
    // connects, downloads; the response suggests a 120-second delay where
    // 1800 was stored -> 120 is stored, ImageDownloaded and
    // SchedulerUpdateRequested are published -> the orchestrator wakes the
    // display task and the scheduler; the scheduler's next wait is 120
    // seconds from that moment.
    let mut state = AppState::new(30);
    let mut bus = EventBus::new();
    let mut signals = TaskSignals::new();
    assert_eq!(next_wait_secs(&state), 1800);

    assert!(bus.try_publish(Event::Key0Pressed));
    let event = bus.try_receive().unwrap();
    let reaction = handle_event(event, &mut signals);
    assert_eq!(reaction, Reaction::WakeNetworkUpdate);
    assert!(signals.network_update.take());

    // The network task runs its cycle.
    let (phase, directive) = net_step(NetPhase::Idle, NetInput::Trigger(NetTrigger::Update));
    assert_eq!((phase, directive), (NetPhase::Joining, NetDirective::AttemptJoin));
    // One failed join attempt retries after the fixed backoff, forever.
    let (phase, directive) = net_step(phase, NetInput::JoinResult { joined: false });
    assert_eq!(
        (phase, directive),
        (NetPhase::Joining, NetDirective::BackoffThenJoin)
    );
    let (phase, directive) = net_step(phase, NetInput::JoinResult { joined: true });
    assert_eq!(
        (phase, directive),
        (NetPhase::AwaitingLink, NetDirective::AwaitLink)
    );
    let (phase, directive) = net_step(phase, NetInput::LinkUp);
    assert_eq!(
        (phase, directive),
        (NetPhase::AwaitingConfig, NetDirective::AwaitConfig)
    );
    let (phase, directive) = net_step(phase, NetInput::ConfigUp);
    assert_eq!(
        (phase, directive),
        (NetPhase::Connected, NetDirective::ConnectAndDownload)
    );
    let connected_event = mark_connected(&mut state);
    assert!(state.wifi_connected);
    assert!(bus.try_publish(connected_event));

    // The download returns 200 with a full-sized body and the delay header.
    let headers: Vec<(Vec<u8>, Vec<u8>)> =
        vec![(b"X-Next-Delay".to_vec(), b"120".to_vec())];
    let suggested = find_suggested_delay(&headers);
    assert_eq!(suggested, Some(120));
    let outcome = evaluate_download(200, 134_400, suggested);
    assert_eq!(
        outcome,
        DownloadOutcome::Success {
            suggested_delay_secs: Some(120)
        }
    );
    let events = apply_download_outcome(&mut state, outcome);
    assert_eq!(state.next_update_delay_secs, 120);
    assert!(state.last_download_success);
    assert_eq!(
        events,
        vec![Event::ImageDownloaded, Event::SchedulerUpdateRequested]
    );
    for event in events {
        assert!(bus.try_publish(event));
    }

    let (phase, directive) = net_step(phase, NetInput::DownloadFinished);
    assert_eq!(
        (phase, directive),
        (NetPhase::Disconnecting, NetDirective::ApplyOutcomeAndDisconnect)
    );
    let (phase, directive) = net_step(phase, NetInput::DisconnectDone);
    assert_eq!((phase, directive), (NetPhase::Idle, NetDirective::FinishCycle));
    let disconnected_event = mark_disconnected(&mut state);
    assert!(!state.wifi_connected);
    assert!(bus.try_publish(disconnected_event));

    // The orchestrator drains the bus: connected (observed), downloaded
    // (wakes display), scheduler update (wakes scheduler), disconnected
    // (observed).
    assert_eq!(
        handle_event(bus.try_receive().unwrap(), &mut signals),
        Reaction::Observe
    );
    assert_eq!(
        handle_event(bus.try_receive().unwrap(), &mut signals),
        Reaction::WakeDisplay
    );
    assert_eq!(
        handle_event(bus.try_receive().unwrap(), &mut signals),
        Reaction::WakeScheduler
    );
    assert_eq!(
        handle_event(bus.try_receive().unwrap(), &mut signals),
        Reaction::Observe
    );
    assert!(signals.display_update.take());
    assert!(signals.scheduler_interrupt.take());

    // The interrupted scheduler restarts and reads the fresh 120 seconds.
    assert_eq!(
        scheduler_step(WaitOutcome::Interrupted),
        SchedulerAction::Restart
    );
    assert_eq!(next_wait_secs(&state), 120);
}

#[test]
fn blink_trigger_skips_the_connection() {
    let (phase, directive) = net_step(NetPhase::Idle, NetInput::Trigger(NetTrigger::Blink));
    assert_eq!((phase, directive), (NetPhase::Blinking, NetDirective::RunBlink));
    let (phase, directive) = net_step(phase, NetInput::BlinkDone);
    assert_eq!((phase, directive), (NetPhase::Idle, NetDirective::AwaitTrigger));
}

#[test]
fn unexpected_inputs_are_ignored() {
    let (phase, directive) = net_step(NetPhase::Idle, NetInput::LinkUp);
    assert_eq!((phase, directive), (NetPhase::Idle, NetDirective::Ignore));
    let (phase, directive) = net_step(NetPhase::Connected, NetInput::ConfigUp);
    assert_eq!((phase, directive), (NetPhase::Connected, NetDirective::Ignore));
}
