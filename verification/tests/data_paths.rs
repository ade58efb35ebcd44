use frame_core::battery::{
    apply_measurement, battery_millivolts, battery_percent, measure_from_samples, median_sample,
    sort_samples, store_measurement,
};
use frame_core::display::{
    draw_battery_overlay, draw_number, set_pixel, should_render, COLOR_BLACK,
};
use frame_core::events::Event;
use frame_core::network::{
    apply_download_outcome, blink_pattern, disconnect_poll_action, evaluate_download,
    find_suggested_delay, is_delay_header_name, parse_u64_decimal, DownloadOutcome, PollVerdict,
    IMAGE_BUFFER_SIZE,
};
use frame_core::state::AppState;

#[test]
fn median_rejects_outlier() {
    // One clear outlier (200) among nine raw samples: the median is 11,
    // not skewed by the outlier.
    let samples: Vec<u16> = vec![10, 50, 12, 11, 9, 200, 13, 10, 11];
    assert_eq!(median_sample(&samples), 11);
}

#[test]
fn sorting_orders_and_keeps_samples() {
    let mut samples: Vec<u16> = vec![10, 50, 12, 11, 9, 200, 13, 10, 11];
    sort_samples(&mut samples);
    assert_eq!(samples, vec![9, 10, 10, 11, 11, 12, 13, 50, 200]);
}

#[test]
fn median_of_partial_sample_set() {
    // Only four of nine samples succeeded: the measurement proceeds with
    // those four; the middle index of the sorted four is taken.
    let samples: Vec<u16> = vec![40, 10, 30, 20];
    assert_eq!(median_sample(&samples), 30);
}

#[test]
fn voltage_to_percentage_mapping() {
    // At or below 3.0 V: 0 %. At or above 4.2 V: 100 %. At 3.6 V, the
    // midpoint of the linear range: 50 %.
    assert_eq!(battery_percent(3000), 0);
    assert_eq!(battery_percent(2500), 0);
    assert_eq!(battery_percent(4200), 100);
    assert_eq!(battery_percent(5000), 100);
    assert_eq!(battery_percent(3600), 50);
    assert_eq!(battery_percent(3001), 0);
    assert_eq!(battery_percent(4199), 99);
}

#[test]
fn adc_reading_to_millivolts() {
    // Full-scale 12-bit reading: 4095 * 3300 / 4096 at the pin, times the
    // 3.2 divider ratio, truncated to whole millivolts.
    assert_eq!(battery_millivolts(4095), 10557);
    assert_eq!(battery_millivolts(0), 0);
    // 3.6 V battery voltage sits near a raw reading of 1396.
    assert_eq!(battery_millivolts(1396), 3599);
}

#[test]
fn measurement_with_no_valid_samples_reports_zero() {
    let samples: Vec<u16> = Vec::new();
    assert_eq!(measure_from_samples(&samples), 0);
}

#[test]
fn measurement_without_valid_samples_retains_previous_reading() {
    let mut state = AppState::new(30);
    store_measurement(&mut state, 42);
    let no_samples: Vec<u16> = Vec::new();
    apply_measurement(&mut state, &no_samples);
    assert_eq!(state.battery_percent, 42);
    // With valid samples the reading is replaced: a raw median of 1630
    // stands for about 4.2 V, a full battery.
    let samples: Vec<u16> = vec![1630, 1630, 1630];
    apply_measurement(&mut state, &samples);
    assert_eq!(state.battery_percent, 100);
}

#[test]
fn measurement_is_stored_without_touching_other_fields() {
    let mut state = AppState::new(30);
    state.wifi_connected = true;
    store_measurement(&mut state, 73);
    assert_eq!(state.battery_percent, 73);
    assert!(state.wifi_connected);
    assert_eq!(state.next_update_delay_secs, 1800);
}

#[test]
fn delay_value_parsing() {
    assert_eq!(parse_u64_decimal(&b"120".to_vec()), Some(120));
    assert_eq!(parse_u64_decimal(&b"+120".to_vec()), Some(120));
    assert_eq!(parse_u64_decimal(&b"0".to_vec()), Some(0));
    assert_eq!(parse_u64_decimal(&b"007".to_vec()), Some(7));
    assert_eq!(parse_u64_decimal(&b"".to_vec()), None);
    assert_eq!(parse_u64_decimal(&b"+".to_vec()), None);
    assert_eq!(parse_u64_decimal(&b"12a".to_vec()), None);
    assert_eq!(parse_u64_decimal(&b"-5".to_vec()), None);
    assert_eq!(parse_u64_decimal(&b" 5".to_vec()), None);
    assert_eq!(
        parse_u64_decimal(&b"18446744073709551615".to_vec()),
        Some(u64::MAX)
    );
    assert_eq!(parse_u64_decimal(&b"18446744073709551616".to_vec()), None);
    assert_eq!(parse_u64_decimal(&b"99999999999999999999999".to_vec()), None);
}

#[test]
fn header_name_matching_is_case_insensitive() {
    assert!(is_delay_header_name(&b"x-next-delay".to_vec()));
    assert!(is_delay_header_name(&b"X-Next-Delay".to_vec()));
    assert!(is_delay_header_name(&b"X-NEXT-DELAY".to_vec()));
    assert!(!is_delay_header_name(&b"x-next-delays".to_vec()));
    assert!(!is_delay_header_name(&b"x-next-dela".to_vec()));
    assert!(!is_delay_header_name(&b"content-type".to_vec()));
}

#[test]
fn header_scan_takes_first_name_match() {
    let headers: Vec<(Vec<u8>, Vec<u8>)> = vec![
        (b"Content-Type".to_vec(), b"image/raw".to_vec()),
        (b"X-NEXT-DELAY".to_vec(), b"300".to_vec()),
        (b"x-next-delay".to_vec(), b"600".to_vec()),
    ];
    assert_eq!(find_suggested_delay(&headers), Some(300));
}

#[test]
fn header_scan_stops_at_malformed_first_match() {
    // The first name match wins even when its value is malformed; the
    // caller then falls back to the default delay.
    let headers: Vec<(Vec<u8>, Vec<u8>)> = vec![
        (b"x-next-delay".to_vec(), b"soon".to_vec()),
        (b"x-next-delay".to_vec(), b"600".to_vec()),
    ];
    assert_eq!(find_suggested_delay(&headers), None);
}

#[test]
fn header_scan_without_match_yields_nothing() {
    let headers: Vec<(Vec<u8>, Vec<u8>)> =
        vec![(b"Content-Length".to_vec(), b"134400".to_vec())];
    assert_eq!(find_suggested_delay(&headers), None);
}

#[test]
fn download_with_mismatched_body_size_fails() {
    // Expected 134,400 bytes, received 100,000: the failure path. The
    // state records the failure, ImageDownloadFailed is published, and the
    // stored delay stays, so the panel is left unchanged and the next
    // cycle proceeds on schedule.
    let outcome = evaluate_download(200, 100_000, Some(120));
    assert_eq!(outcome, DownloadOutcome::Failure);
    let mut state = AppState::new(30);
    let events = apply_download_outcome(&mut state, outcome);
    assert!(!state.last_download_success);
    assert_eq!(state.next_update_delay_secs, 1800);
    assert_eq!(events, vec![Event::ImageDownloadFailed]);
}

#[test]
fn download_with_error_status_fails() {
    assert_eq!(evaluate_download(404, IMAGE_BUFFER_SIZE, None), DownloadOutcome::Failure);
    assert_eq!(evaluate_download(500, IMAGE_BUFFER_SIZE, None), DownloadOutcome::Failure);
}

#[test]
fn download_success_without_delay_change_publishes_once() {
    // No delay header: the default is stored; it equals the stored value,
    // so no scheduler restart is owed.
    let outcome = evaluate_download(200, IMAGE_BUFFER_SIZE, None);
    assert_eq!(
        outcome,
        DownloadOutcome::Success {
            suggested_delay_secs: None
        }
    );
    let mut state = AppState::new(30);
    let events = apply_download_outcome(&mut state, outcome);
    assert!(state.last_download_success);
    assert_eq!(state.next_update_delay_secs, 1800);
    assert_eq!(events, vec![Event::ImageDownloaded]);
}

#[test]
fn download_success_with_changed_delay_requests_restart() {
    let mut state = AppState::new(30);
    let events = apply_download_outcome(
        &mut state,
        DownloadOutcome::Success {
            suggested_delay_secs: Some(120),
        },
    );
    assert_eq!(state.next_update_delay_secs, 120);
    assert_eq!(
        events,
        vec![Event::ImageDownloaded, Event::SchedulerUpdateRequested]
    );
}

#[test]
fn disconnect_poll_is_bounded() {
    assert_eq!(disconnect_poll_action(0, true, false), PollVerdict::Wait);
    assert_eq!(disconnect_poll_action(49, false, true), PollVerdict::Wait);
    assert_eq!(disconnect_poll_action(50, true, true), PollVerdict::GiveUp);
    assert_eq!(disconnect_poll_action(0, false, false), PollVerdict::Done);
    assert_eq!(disconnect_poll_action(50, false, false), PollVerdict::Done);
}

#[test]
fn blink_pattern_is_five_on_off_phases() {
    let pattern = blink_pattern();
    assert_eq!(pattern.len(), 10);
    for (i, phase) in pattern.iter().enumerate() {
        assert_eq!(*phase, (i % 2 == 0, 200));
    }
}

#[test]
fn set_pixel_writes_one_nibble() {
    let mut image: Vec<u8> = vec![0x11; 8];
    // Even column: high nibble of its byte.
    set_pixel(&mut image, 0, 0, 0x3, 300);
    assert_eq!(image[0], 0x31);
    // Odd column: low nibble of the same byte.
    set_pixel(&mut image, 1, 0, 0x4, 300);
    assert_eq!(image[0], 0x34);
    // Other bytes untouched.
    assert_eq!(image[1], 0x11);
    // A pixel beyond the buffer is ignored.
    set_pixel(&mut image, 40, 0, 0x7, 300);
    assert_eq!(image, vec![0x34, 0x11, 0x11, 0x11, 0x11, 0x11, 0x11, 0x11]);
}

#[test]
fn draw_number_returns_text_width() {
    let mut image: Vec<u8> = vec![0x11; IMAGE_BUFFER_SIZE];
    // One digit: five columns at scale 1.
    assert_eq!(draw_number(&mut image, 0, 20, 7, COLOR_BLACK, 1), 5);
    // Two digits: 5 + 2 + 5 columns.
    assert_eq!(draw_number(&mut image, 0, 40, 42, COLOR_BLACK, 1), 12);
    // Three digits: 5 + 2 + 5 + 2 + 5 columns, doubled at scale 2.
    assert_eq!(draw_number(&mut image, 0, 60, 100, COLOR_BLACK, 2), 38);
}

#[test]
fn draw_number_paints_glyph_pixels() {
    let mut image: Vec<u8> = vec![0x11; IMAGE_BUFFER_SIZE];
    draw_number(&mut image, 0, 0, 4, COLOR_BLACK, 1);
    // The digit 4's fourth column is a full vertical bar: pixel (3, 0) is
    // painted black. Column 3 is the low nibble of byte 1.
    assert_eq!(image[1] & 0x0F, 0x0);
    // The digit 4's first column has no pixel in its top row: pixel (0, 0)
    // keeps its white background in the high nibble of byte 0.
    assert_eq!(image[0] >> 4, 0x1);
}

#[test]
fn overlay_draws_battery_percent_in_corner() {
    let mut image: Vec<u8> = vec![0x11; IMAGE_BUFFER_SIZE];
    draw_battery_overlay(&mut image, 73);
    // Digit 7 at scale 2: its first column's top row is set, so pixels
    // (0,0) and (1,0) are black: byte 0 holds both nibbles.
    assert_eq!(image[0], 0x00);
    // Far corner of the panel is untouched.
    assert_eq!(image[IMAGE_BUFFER_SIZE - 1], 0x11);
}

#[test]
fn only_full_sized_buffers_are_rendered() {
    assert!(should_render(IMAGE_BUFFER_SIZE));
    assert!(!should_render(100_000));
    assert!(!should_render(0));
    assert!(!should_render(IMAGE_BUFFER_SIZE + 1));
}

#[test]
fn boot_state_holds_defaults() {
    let state = AppState::new(30);
    assert_eq!(state.next_update_delay_secs, 1800);
    assert_eq!(state.battery_percent, 0);
    assert!(!state.wifi_connected);
    assert!(!state.last_download_success);
}
