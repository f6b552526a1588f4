use ai_transcribe_local::capture::{
    build_capture_arguments, choose_backend, recording_file_name, CaptureBackend, RecordingSource,
};
use ai_transcribe_local::entry::{Entry, EntryEvent, EntryStatus};
use ai_transcribe_local::finalize::{has_audible_data, plan_finalization};
use ai_transcribe_local::platform::HostPlatform;
use ai_transcribe_local::registry::{RecordingSession, SessionRegistry};
use ai_transcribe_local::shutdown::{
    resume_before_stop, PauseAction, ProcessProbe, ShutdownAction, ShutdownWatch,
};
use ai_transcribe_local::telemetry::{RecordingTelemetry, TelemetryEvent};

fn level_of(db: f32) -> f32 {
    ((db + 55.0) / 45.0).clamp(0.0, 1.0)
}

#[test]
fn a_microphone_session_from_start_to_stop() {
    let sources = vec![RecordingSource {
        label: "Microphone".to_string(),
        format: "mic".to_string(),
        input: "default".to_string(),
    }];
    let mut entry = Entry::new("e1".to_string(), "f1".to_string(), "Call".to_string(), "t0");
    assert_eq!(entry.status, EntryStatus::New);

    let backend = choose_backend(&sources, HostPlatform::Other, true).unwrap();
    assert_eq!(backend, CaptureBackend::Ffmpeg);
    let name = recording_file_name(entry.recording_path.is_some(), 1_700_000_000);
    assert_eq!(name, "original.wav");
    let output = format!("/data/entries/e1/audio/{name}");
    let arguments = build_capture_arguments(backend, &sources, &output);
    assert_eq!(arguments[4..8], ["-f", "mic", "-i", "default"]);
    assert_eq!(arguments.last().unwrap(), &output);

    entry.record(EntryEvent::RecordingStarted, "t1".to_string()).unwrap();
    assert_eq!(entry.status, EntryStatus::Recording);
    let mut registry: SessionRegistry<()> = SessionRegistry::new();
    let id = registry.register(RecordingSession {
        entry_id: entry.id.clone(),
        output_path: output.clone(),
        existing_path: None,
        paused: false,
        handle: (),
    });

    let mut telemetry = RecordingTelemetry::new();
    let mut level = 0.0f32;
    let mut micros = 0u64;
    while micros < 2_000_000 {
        micros += 100_000;
        let progress = format!("out_time_us={micros}");
        assert!(matches!(telemetry.observe_line(&progress), TelemetryEvent::Progress(_)));
        match telemetry.observe_line("[Parsed_ametadata_1 @ 0x1] lavfi.astats.Overall.RMS_level=-20.000000") {
            TelemetryEvent::RmsDecibels(text) => {
                let sample = level_of(text.parse::<f32>().unwrap());
                level = (level * 0.6 + sample * 0.4).clamp(0.0, 1.0);
            }
            other => panic!("unexpected event {:?}", other),
        }
        assert!((0.0..=1.0).contains(&level));
    }
    assert!(telemetry.bytes_written >= 44 + 64_000);
    assert!((level - 0.778).abs() < 0.001);
    assert_eq!(telemetry.meter(10), 64_044);

    let session = registry.remove(&id).unwrap();
    assert!(registry.remove(&id).is_none());
    assert_eq!(resume_before_stop(session.paused), PauseAction::Nothing);
    let mut watch = ShutdownWatch::new();
    assert_eq!(watch.observe(ProcessProbe::Running), ShutdownAction::SleepThenProbe);
    assert_eq!(watch.observe(ProcessProbe::Exited), ShutdownAction::Finished);

    let plan = plan_finalization(
        session.existing_path.as_deref(),
        &session.output_path,
        true,
        false,
        "/data/entries/e1/audio/merged-1.wav",
    )
    .unwrap();
    assert!(plan.steps.is_empty());
    assert_eq!(plan.final_path, output);
    assert!(has_audible_data(64_044));
    entry.finish_recording(plan.final_path, 2, "t2".to_string());
    assert_eq!(entry.status, EntryStatus::Recorded);
    assert_eq!(entry.recording_path.as_deref(), Some(output.as_str()));
    assert_eq!(entry.duration_sec, 2);
}

#[test]
fn a_second_recording_writes_a_segment_and_is_merged() {
    let mut entry = Entry::new("e1".to_string(), "f1".to_string(), "Call".to_string(), "t0");
    entry.finish_recording("/d/original.wav".to_string(), 5, "t1".to_string());
    let name = recording_file_name(entry.recording_path.is_some(), 77);
    assert_eq!(name, "segment-77.wav");
    entry.record(EntryEvent::RecordingStarted, "t2".to_string()).unwrap();
    assert_eq!(entry.status, EntryStatus::Recording);

    let mut registry: SessionRegistry<()> = SessionRegistry::new();
    let id = registry.register(RecordingSession {
        entry_id: entry.id.clone(),
        output_path: format!("/d/{name}"),
        existing_path: entry.recording_path.clone(),
        paused: false,
        handle: (),
    });
    assert!(registry.set_paused(&id, true));
    let session = registry.remove(&id).unwrap();
    assert_eq!(resume_before_stop(session.paused), PauseAction::Continue);

    let plan = plan_finalization(
        session.existing_path.as_deref(),
        &session.output_path,
        true,
        true,
        "/d/merged-99.wav",
    )
    .unwrap();
    assert_eq!(plan.steps.len(), 4);
    assert_eq!(plan.final_path, "/d/original.wav");
    entry.finish_recording(plan.final_path, 9, "t3".to_string());
    assert_eq!(entry.status, EntryStatus::Recorded);
    assert_eq!(entry.recording_path.as_deref(), Some("/d/original.wav"));
}
