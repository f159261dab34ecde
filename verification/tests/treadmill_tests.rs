use ftms::treadmill::{
    classify_message, heartbeat, incline_command, incline_percent_to_tenths, parse_backend_line,
    speed_command, start_command, status_request, Backoff, BackendMessage, BackendSession,
    DistanceStep, TreadmillState, CENTIMETERS_PER_MILE, HEARTBEAT_PERIOD_SECS, NANOS_PER_SEC,
};

fn sample_state() -> TreadmillState {
    TreadmillState {
        speed_tenths_mph: 35,
        incline_percent: 4,
        elapsed_secs: 0,
        distance_meters: 0,
        connected: false,
    }
}

#[test]
fn default_state_is_stopped_and_disconnected() {
    let state = TreadmillState::default();
    assert_eq!(
        state,
        TreadmillState {
            speed_tenths_mph: 0,
            incline_percent: 0,
            elapsed_secs: 0,
            distance_meters: 0,
            connected: false,
        }
    );
}

#[test]
fn encode_ftms_data_converts_units() {
    let state = TreadmillState {
        speed_tenths_mph: 35,
        incline_percent: 4,
        elapsed_secs: 300,
        distance_meters: 1234,
        connected: true,
    };
    let frame = state.encode_ftms_data();
    // 35 * 1609 / 100 = 563 = 0x0233; 4 % = 40 tenths = 0x0028
    assert_eq!(
        frame,
        vec![0x0C, 0x04, 0x33, 0x02, 0xD2, 0x04, 0x00, 0x28, 0x00, 0x00, 0x00, 0x2C, 0x01]
    );
}

#[test]
fn encode_ftms_data_of_default_state() {
    let frame = TreadmillState::default().encode_ftms_data();
    assert_eq!(frame, vec![0x0C, 0x04, 0, 0, 0, 0, 0, 0, 0, 0, 0, 0, 0]);
}

#[test]
fn encode_ftms_data_keeps_low_bits_of_large_readings() {
    let state = TreadmillState {
        speed_tenths_mph: u16::MAX,
        incline_percent: u16::MAX,
        elapsed_secs: u16::MAX,
        distance_meters: u32::MAX,
        connected: true,
    };
    let frame = state.encode_ftms_data();
    assert_eq!(frame.len(), 13);
    // 65535 * 1609 / 100 = 1054458, low 16 bits = 5882
    assert_eq!(u16::from_le_bytes([frame[2], frame[3]]), ((65535u32 * 1609) / 100) as u16);
    assert_eq!(u16::from_le_bytes([frame[2], frame[3]]), 5882);
    assert_eq!([frame[4], frame[5], frame[6]], [0xFF, 0xFF, 0xFF]);
    // 65535 * 10 = 655350, low 16 bits = 0xFFF6 = -10
    assert_eq!(i16::from_le_bytes([frame[7], frame[8]]), -10);
    assert_eq!(u16::from_le_bytes([frame[11], frame[12]]), u16::MAX);
}

#[test]
fn incline_percent_to_tenths_values() {
    assert_eq!(incline_percent_to_tenths(0), 0);
    assert_eq!(incline_percent_to_tenths(15), 150);
    assert_eq!(incline_percent_to_tenths(3276), 32760);
    // 3277 * 10 = 32770 wraps to 32770 - 65536
    assert_eq!(incline_percent_to_tenths(3277), -32766);
    assert_eq!(incline_percent_to_tenths(u16::MAX), -10);
}

#[test]
fn parse_backend_line_status() {
    let msg = parse_backend_line("{\"type\":\"status\",\"emu_speed\":35,\"emu_incline\":4}");
    assert_eq!(msg, BackendMessage::Status { speed_tenths_mph: 35, incline_percent: 4 });
}

#[test]
fn parse_backend_line_status_with_other_members() {
    let msg = parse_backend_line(
        "{\"emu_incline\": 7, \"proxy\": true, \"type\": \"status\", \"emu_speed\": 120, \"x\": [1, 2]}",
    );
    assert_eq!(msg, BackendMessage::Status { speed_tenths_mph: 120, incline_percent: 7 });
}

#[test]
fn parse_backend_line_status_missing_readings_are_zero() {
    assert_eq!(
        parse_backend_line("{\"type\":\"status\"}"),
        BackendMessage::Status { speed_tenths_mph: 0, incline_percent: 0 }
    );
    // A negative, fractional or textual reading is no unsigned integer.
    assert_eq!(
        parse_backend_line("{\"type\":\"status\",\"emu_speed\":-3,\"emu_incline\":2.5}"),
        BackendMessage::Status { speed_tenths_mph: 0, incline_percent: 0 }
    );
    assert_eq!(
        parse_backend_line("{\"type\":\"status\",\"emu_speed\":\"35\",\"emu_incline\":null}"),
        BackendMessage::Status { speed_tenths_mph: 0, incline_percent: 0 }
    );
}

#[test]
fn parse_backend_line_status_keeps_low_16_bits() {
    // 65536 + 35 and 131072 + 4
    assert_eq!(
        parse_backend_line("{\"type\":\"status\",\"emu_speed\":65571,\"emu_incline\":131076}"),
        BackendMessage::Status { speed_tenths_mph: 35, incline_percent: 4 }
    );
    assert_eq!(
        parse_backend_line("{\"type\":\"status\",\"emu_speed\":65535,\"emu_incline\":18446744073709551615}"),
        BackendMessage::Status { speed_tenths_mph: 65535, incline_percent: 65535 }
    );
}

#[test]
fn parse_backend_line_kv_and_unknown() {
    assert_eq!(parse_backend_line("{\"type\":\"kv\",\"key\":\"hmph\",\"value\":\"1A\"}"), BackendMessage::Kv);
    assert_eq!(parse_backend_line("{\"type\":\"hello\"}"), BackendMessage::Unknown);
    assert_eq!(parse_backend_line("{\"emu_speed\":35}"), BackendMessage::Unknown);
    assert_eq!(parse_backend_line("{\"type\":7}"), BackendMessage::Unknown);
    assert_eq!(parse_backend_line("{\"type\":\"Status\"}"), BackendMessage::Unknown);
    assert_eq!(parse_backend_line("[\"status\"]"), BackendMessage::Unknown);
    assert_eq!(parse_backend_line("42"), BackendMessage::Unknown);
}

#[test]
fn parse_backend_line_malformed() {
    assert_eq!(parse_backend_line(""), BackendMessage::Malformed);
    assert_eq!(parse_backend_line("not json"), BackendMessage::Malformed);
    assert_eq!(parse_backend_line("{\"type\":\"status\""), BackendMessage::Malformed);
    assert_eq!(parse_backend_line("{\"type\":\"status\"} trailing"), BackendMessage::Malformed);
}

#[test]
fn classify_message_table() {
    assert_eq!(
        classify_message(Some("status"), Some(12), Some(3)),
        BackendMessage::Status { speed_tenths_mph: 12, incline_percent: 3 }
    );
    assert_eq!(
        classify_message(Some("status"), None, Some(65537)),
        BackendMessage::Status { speed_tenths_mph: 0, incline_percent: 1 }
    );
    assert_eq!(classify_message(Some("kv"), Some(12), Some(3)), BackendMessage::Kv);
    assert_eq!(classify_message(Some(""), Some(12), Some(3)), BackendMessage::Unknown);
    assert_eq!(classify_message(Some("statuses"), Some(12), Some(3)), BackendMessage::Unknown);
    assert_eq!(classify_message(None, Some(12), Some(3)), BackendMessage::Unknown);
}

#[test]
fn connect_marks_connected_and_resets_counters() {
    let mut state = TreadmillState {
        speed_tenths_mph: 35,
        incline_percent: 4,
        elapsed_secs: 77,
        distance_meters: 900,
        connected: false,
    };
    let _session = BackendSession::connect(&mut state, 5);
    assert_eq!(
        state,
        TreadmillState {
            speed_tenths_mph: 35,
            incline_percent: 4,
            elapsed_secs: 0,
            distance_meters: 0,
            connected: true,
        }
    );
}

#[test]
fn observe_line_returns_previous_speed_and_time_since_last_line() {
    let mut state = sample_state();
    let mut session = BackendSession::connect(&mut state, 1_000);
    assert_eq!(session.observe_line(&state, 1_500), DistanceStep { speed_tenths_mph: 35, nanos: 500 });
    // The step carries the speed of the sample before, not of the one coming in.
    session.record_status(&mut state, 60, 1, 1_500, 0);
    assert_eq!(
        session.observe_line(&state, 4_000),
        DistanceStep { speed_tenths_mph: 60, nanos: 2_500 }
    );
    // a clock reading that went back counts as no time
    assert_eq!(session.observe_line(&state, 3_000), DistanceStep { speed_tenths_mph: 60, nanos: 0 });
    assert_eq!(session.observe_line(&state, 3_001), DistanceStep { speed_tenths_mph: 60, nanos: 1 });
}

#[test]
fn elapsed_runs_from_first_moving_sample() {
    let mut state = TreadmillState::default();
    let start = 10 * NANOS_PER_SEC;
    let mut session = BackendSession::connect(&mut state, start);

    // Belt at rest: no anchor yet, elapsed stays 0.
    session.record_status(&mut state, 0, 0, start + 3 * NANOS_PER_SEC, 0);
    assert_eq!(state.elapsed_secs, 0);
    assert_eq!(state.speed_tenths_mph, 0);

    // First moving sample sets the anchor: elapsed is 0 at that instant.
    session.record_status(&mut state, 30, 2, start + 5 * NANOS_PER_SEC, 0);
    assert_eq!(state.elapsed_secs, 0);
    assert_eq!(state.speed_tenths_mph, 30);
    assert_eq!(state.incline_percent, 2);

    // 7.9 s later: 7 whole seconds.
    session.record_status(&mut state, 30, 2, start + 5 * NANOS_PER_SEC + 7_900_000_000, 6);
    assert_eq!(state.elapsed_secs, 7);
    assert_eq!(state.distance_meters, 6);

    // The belt stopping does not move the anchor.
    session.record_status(&mut state, 0, 0, start + 65 * NANOS_PER_SEC, 80);
    assert_eq!(state.elapsed_secs, 60);
    assert_eq!(state.distance_meters, 80);
    assert!(state.connected);
}

#[test]
fn elapsed_keeps_low_16_bits() {
    let mut state = TreadmillState::default();
    let mut session = BackendSession::connect(&mut state, 0);
    session.record_status(&mut state, 10, 0, 0, 0);
    session.record_status(&mut state, 10, 0, 65_536 * NANOS_PER_SEC + 5 * NANOS_PER_SEC, 1);
    assert_eq!(state.elapsed_secs, 5);
    session.record_status(&mut state, 10, 0, 65_535 * NANOS_PER_SEC, 1);
    assert_eq!(state.elapsed_secs, 65_535);
}

#[test]
fn distance_never_goes_back_within_a_connection() {
    let mut state = TreadmillState::default();
    let mut session = BackendSession::connect(&mut state, 0);
    session.record_status(&mut state, 10, 0, 1, 100);
    assert_eq!(state.distance_meters, 100);
    session.record_status(&mut state, 10, 0, 2, 99);
    assert_eq!(state.distance_meters, 100);
    session.record_status(&mut state, 10, 0, 3, 101);
    assert_eq!(state.distance_meters, 101);
}

#[test]
fn connection_drop_then_reconnect_resets_distance_and_elapsed() {
    let mut state = TreadmillState::default();
    let mut session = BackendSession::connect(&mut state, 0);
    session.record_status(&mut state, 60, 3, NANOS_PER_SEC, 0);
    session.record_status(&mut state, 60, 3, 31 * NANOS_PER_SEC, 80);
    assert_eq!(state.elapsed_secs, 30);
    assert_eq!(state.distance_meters, 80);
    assert!(state.connected);

    // The connection drops: the state keeps its last readings.
    state.mark_disconnected();
    assert!(!state.connected);
    assert_eq!(state.speed_tenths_mph, 60);
    assert_eq!(state.incline_percent, 3);
    assert_eq!(state.elapsed_secs, 30);
    assert_eq!(state.distance_meters, 80);

    // The next connection starts from zero; speed and incline stay until a sample.
    let mut session = BackendSession::connect(&mut state, 40 * NANOS_PER_SEC);
    assert!(state.connected);
    assert_eq!(state.distance_meters, 0);
    assert_eq!(state.elapsed_secs, 0);
    assert_eq!(state.speed_tenths_mph, 60);
    assert_eq!(state.incline_percent, 3);

    // The old anchor is gone: a sample at rest leaves elapsed at 0.
    session.record_status(&mut state, 0, 0, 50 * NANOS_PER_SEC, 0);
    assert_eq!(state.elapsed_secs, 0);
    assert_eq!(state.speed_tenths_mph, 0);
}

#[test]
fn backoff_doubles_up_to_the_cap() {
    let mut backoff = Backoff::new();
    assert_eq!(backoff.delay_secs(), 1);
    let mut seen = Vec::new();
    for _ in 0..8 {
        seen.push(backoff.next_delay());
    }
    assert_eq!(seen, vec![1, 2, 4, 8, 10, 10, 10, 10]);
    assert_eq!(backoff.delay_secs(), 10);
}

#[test]
fn request_lines() {
    assert_eq!(status_request(), "{\"cmd\":\"status\"}\n");
    assert_eq!(heartbeat(), "{\"cmd\":\"heartbeat\"}\n");
    assert_eq!(start_command(), "{\"cmd\":\"emulate\",\"enabled\":true}\n");
}

#[test]
fn speed_command_lines() {
    assert_eq!(speed_command(0), "{\"cmd\":\"speed\",\"value\":0.0}\n");
    assert_eq!(speed_command(5), "{\"cmd\":\"speed\",\"value\":0.5}\n");
    assert_eq!(speed_command(31), "{\"cmd\":\"speed\",\"value\":3.1}\n");
    assert_eq!(speed_command(120), "{\"cmd\":\"speed\",\"value\":12.0}\n");
    assert_eq!(speed_command(65535), "{\"cmd\":\"speed\",\"value\":6553.5}\n");
}

#[test]
fn speed_command_matches_one_decimal_formatting() {
    for tenths in 0u16..=u16::MAX {
        let expected = format!("{{\"cmd\":\"speed\",\"value\":{:.1}}}\n", tenths as f64 / 10.0);
        assert_eq!(speed_command(tenths), expected);
    }
}

#[test]
fn incline_command_matches_integer_formatting() {
    for percent in i16::MIN..=i16::MAX {
        let expected = format!("{{\"cmd\":\"incline\",\"value\":{}}}\n", percent);
        assert_eq!(incline_command(percent), expected);
    }
}

#[test]
fn command_lines_are_single_lines() {
    let mut lines = vec![status_request(), heartbeat(), start_command()];
    for tenths in [0u16, 9, 10, 120, 65535] {
        lines.push(speed_command(tenths));
    }
    for percent in [0i16, 15, -1, i16::MIN, i16::MAX] {
        lines.push(incline_command(percent));
    }
    for line in lines {
        assert!(line.ends_with('\n'));
        assert_eq!(line.matches('\n').count(), 1);
        let document: serde_json::Value = serde_json::from_str(line.trim_end()).expect("a document");
        assert!(document.get("cmd").and_then(|c| c.as_str()).is_some());
    }
}

#[test]
fn incline_command_lines() {
    assert_eq!(incline_command(0), "{\"cmd\":\"incline\",\"value\":0}\n");
    assert_eq!(incline_command(5), "{\"cmd\":\"incline\",\"value\":5}\n");
    assert_eq!(incline_command(15), "{\"cmd\":\"incline\",\"value\":15}\n");
    assert_eq!(incline_command(-1), "{\"cmd\":\"incline\",\"value\":-1}\n");
    assert_eq!(incline_command(i16::MAX), "{\"cmd\":\"incline\",\"value\":32767}\n");
    assert_eq!(incline_command(i16::MIN), "{\"cmd\":\"incline\",\"value\":-32768}\n");
}

#[test]
fn unit_constants() {
    assert_eq!(CENTIMETERS_PER_MILE as f64 / 100.0, 1609.34);
    assert_eq!(NANOS_PER_SEC, 1_000_000_000);
    assert_eq!(HEARTBEAT_PERIOD_SECS, 1);
}
