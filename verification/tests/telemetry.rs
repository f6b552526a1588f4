use ai_transcribe_local::telemetry::{
    estimated_pcm_bytes_from_us, parse_telemetry_line, RecordingTelemetry, TelemetryEvent,
};

#[test]
fn estimate_for_two_seconds_is_header_plus_samples() {
    assert_eq!(estimated_pcm_bytes_from_us(2_000_000), 44 + 64_000);
}

#[test]
fn estimate_for_nothing_is_the_header() {
    assert_eq!(estimated_pcm_bytes_from_us(0), 44);
}

#[test]
fn estimate_rounds_down() {
    assert_eq!(estimated_pcm_bytes_from_us(31), 44);
    assert_eq!(estimated_pcm_bytes_from_us(32), 45);
    assert_eq!(estimated_pcm_bytes_from_us(1_000_000), 44 + 32_000);
}

#[test]
fn estimate_saturates_for_huge_times() {
    assert_eq!(estimated_pcm_bytes_from_us(u64::MAX), 44 + u64::MAX / 1_000_000);
    let largest_exact = u64::MAX / 32_000;
    assert_eq!(
        estimated_pcm_bytes_from_us(largest_exact),
        44 + largest_exact * 32_000 / 1_000_000
    );
    assert_eq!(
        estimated_pcm_bytes_from_us(largest_exact + 1),
        44 + u64::MAX / 1_000_000
    );
}

#[test]
fn error_line_is_kept_verbatim_but_trimmed() {
    match parse_telemetry_line("sck_error=  permission denied \t") {
        TelemetryEvent::RecorderError(e) => assert_eq!(e, "permission denied"),
        other => panic!("unexpected event {:?}", other),
    }
}

#[test]
fn total_size_line_gives_the_counter() {
    assert!(matches!(
        parse_telemetry_line("total_size=123456"),
        TelemetryEvent::TotalSize(123456)
    ));
    assert!(matches!(
        parse_telemetry_line("total_size= 77 "),
        TelemetryEvent::TotalSize(77)
    ));
    assert!(matches!(
        parse_telemetry_line("total_size=+5"),
        TelemetryEvent::TotalSize(5)
    ));
}

#[test]
fn malformed_counters_are_ignored() {
    for line in [
        "total_size=",
        "total_size=N/A",
        "total_size=-1",
        "total_size=12a",
        "total_size=+",
        "total_size=1 2",
        "total_size=18446744073709551616",
        "out_time_us=",
        "out_time_us=-9223372036854775808",
        "out_time_us=1.5",
    ] {
        assert!(
            matches!(parse_telemetry_line(line), TelemetryEvent::Ignored),
            "{line}"
        );
    }
}

#[test]
fn largest_counter_is_read() {
    assert!(matches!(
        parse_telemetry_line("total_size=18446744073709551615"),
        TelemetryEvent::TotalSize(u64::MAX)
    ));
    assert!(matches!(
        parse_telemetry_line("total_size=00018446744073709551615"),
        TelemetryEvent::TotalSize(u64::MAX)
    ));
}

#[test]
fn progress_line_gives_microseconds() {
    assert!(matches!(
        parse_telemetry_line("out_time_us=2000000"),
        TelemetryEvent::Progress(2_000_000)
    ));
}

#[test]
fn level_line_hands_the_sample_on() {
    match parse_telemetry_line("level= 0.25 ") {
        TelemetryEvent::Level(text) => assert_eq!(text, "0.25"),
        other => panic!("unexpected event {:?}", other),
    }
}

#[test]
fn rms_line_is_found_anywhere_in_the_line() {
    match parse_telemetry_line("[Parsed_ametadata_1 @ 0x55] lavfi.astats.Overall.RMS_level=-20.000000") {
        TelemetryEvent::RmsDecibels(text) => assert_eq!(text, "-20.000000"),
        other => panic!("unexpected event {:?}", other),
    }
}

#[test]
fn rms_minus_infinity_is_silence_in_any_case() {
    assert!(matches!(
        parse_telemetry_line("lavfi.astats.Overall.RMS_level=-inf"),
        TelemetryEvent::RmsSilence
    ));
    assert!(matches!(
        parse_telemetry_line("lavfi.astats.Overall.RMS_level= -INF "),
        TelemetryEvent::RmsSilence
    ));
}

#[test]
fn markers_must_start_the_line_except_rms() {
    assert!(matches!(
        parse_telemetry_line(" total_size=5"),
        TelemetryEvent::Ignored
    ));
    assert!(matches!(
        parse_telemetry_line("x sck_error=boom"),
        TelemetryEvent::Ignored
    ));
}

#[test]
fn unrecognised_and_garbled_lines_are_ignored() {
    for line in ["", "frame=12", "progress=continue", "=", "tot", "\u{fffd}\u{0}total"] {
        assert!(
            matches!(parse_telemetry_line(line), TelemetryEvent::Ignored),
            "{line:?}"
        );
    }
}

#[test]
fn first_marker_wins() {
    match parse_telemetry_line("sck_error=total_size=5") {
        TelemetryEvent::RecorderError(e) => assert_eq!(e, "total_size=5"),
        other => panic!("unexpected event {:?}", other),
    }
}

#[test]
fn byte_counter_never_regresses_when_reports_interleave() {
    let mut t = RecordingTelemetry::new();
    let lines = [
        "out_time_us=1000000",
        "total_size=100",
        "total_size=50000",
        "out_time_us=500000",
        "total_size=40000",
        "out_time_us=3000000",
        "total_size=garbage",
        "total_size=0",
    ];
    let expected = [32_044, 32_044, 50_000, 50_000, 50_000, 96_044, 96_044, 96_044];
    let mut last = 0;
    for (line, want) in lines.iter().zip(expected) {
        t.observe_line(line);
        assert!(t.bytes_written >= last);
        assert_eq!(t.bytes_written, want, "{line}");
        last = t.bytes_written;
    }
}

#[test]
fn two_seconds_of_progress_reach_the_expected_size() {
    let mut t = RecordingTelemetry::new();
    t.observe_line("out_time_us=1000000");
    t.observe_line("lavfi.astats.Overall.RMS_level=-20");
    t.observe_line("out_time_us=2000000");
    assert!(t.bytes_written >= 44 + 64_000);
    assert_eq!(t.bytes_written, 64_044);
    assert!(t.last_error.is_none());
}

#[test]
fn last_error_is_replaced_by_a_later_one() {
    let mut t = RecordingTelemetry::new();
    t.observe_line("sck_error=first");
    assert_eq!(t.last_error.as_deref(), Some("first"));
    t.observe_line("total_size=10");
    assert_eq!(t.last_error.as_deref(), Some("first"));
    t.observe_line("sck_error=second");
    assert_eq!(t.last_error.as_deref(), Some("second"));
    assert_eq!(t.bytes_written, 10);
}

#[test]
fn level_events_leave_the_counters_alone() {
    let mut t = RecordingTelemetry::new();
    t.apply(&TelemetryEvent::TotalSize(9));
    t.apply(&TelemetryEvent::Level("0.5".to_string()));
    t.apply(&TelemetryEvent::RmsSilence);
    t.apply(&TelemetryEvent::RmsDecibels("-12".to_string()));
    t.apply(&TelemetryEvent::Ignored);
    assert_eq!(t.bytes_written, 9);
    assert!(t.last_error.is_none());
}

#[test]
fn meter_takes_the_larger_of_file_and_estimate() {
    let mut t = RecordingTelemetry::new();
    t.observe_line("out_time_us=1000000");
    assert_eq!(t.meter(10), 32_044);
    assert_eq!(t.bytes_written, 32_044);
    assert_eq!(t.meter(40_000), 40_000);
    assert_eq!(t.bytes_written, 40_000);
    assert_eq!(t.meter(0), 40_000);
}
