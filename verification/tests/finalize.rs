use ai_transcribe_local::finalize::{
    build_concat_arguments, build_probe_arguments, has_audible_data, merged_file_name,
    plan_finalization, stop_error_message, FileStep, StopError,
};
use ai_transcribe_local::shutdown::{
    build_signal_arguments, check_pause_support, pause_action, resume_before_stop, PauseAction,
    PauseError, ProcessProbe, ShutdownAction, ShutdownWatch,
};

fn step(s: &FileStep) -> String {
    match s {
        FileStep::Concatenate { first, second, output } => format!("concat {first} + {second} > {output}"),
        FileStep::Remove { path } => format!("rm {path}"),
        FileStep::Rename { from, to } => format!("mv {from} {to}"),
    }
}

#[test]
fn prior_audio_and_fresh_segment_are_merged_prior_first() {
    let plan = plan_finalization(
        Some("/a/original.wav"),
        "/a/segment-5.wav",
        true,
        true,
        "/a/merged-9.wav",
    )
    .unwrap();
    assert_eq!(plan.final_path, "/a/original.wav");
    let steps: Vec<String> = plan.steps.iter().map(step).collect();
    assert_eq!(
        steps,
        vec![
            "concat /a/original.wav + /a/segment-5.wav > /a/merged-9.wav",
            "rm /a/original.wav",
            "mv /a/merged-9.wav /a/original.wav",
            "rm /a/segment-5.wav",
        ]
    );
}

#[test]
fn missing_segment_leaves_prior_audio_unchanged() {
    let plan = plan_finalization(
        Some("/a/original.wav"),
        "/a/segment-5.wav",
        false,
        true,
        "/a/merged-9.wav",
    )
    .unwrap();
    assert_eq!(plan.final_path, "/a/original.wav");
    assert!(plan.steps.is_empty());
}

#[test]
fn segment_stands_alone_when_prior_audio_is_gone() {
    let plan =
        plan_finalization(Some("/a/original.wav"), "/a/segment-5.wav", true, false, "/a/m.wav")
            .unwrap();
    assert_eq!(plan.final_path, "/a/segment-5.wav");
    assert!(plan.steps.is_empty());
}

#[test]
fn first_recording_becomes_the_audio() {
    for prior_exists in [true, false] {
        let plan =
            plan_finalization(None, "/a/original.wav", true, prior_exists, "/a/m.wav").unwrap();
        assert_eq!(plan.final_path, "/a/original.wav");
        assert!(plan.steps.is_empty());
    }
}

#[test]
fn nothing_on_disk_is_no_recording() {
    assert!(plan_finalization(None, "/a/original.wav", false, false, "/a/m.wav").is_none());
    assert!(plan_finalization(None, "/a/original.wav", false, true, "/a/m.wav").is_none());
    assert!(
        plan_finalization(Some("/a/original.wav"), "/a/segment-1.wav", false, false, "/a/m.wav")
            .is_none()
    );
}

#[test]
fn recordings_up_to_the_threshold_hold_no_audible_data() {
    assert!(!has_audible_data(0));
    assert!(!has_audible_data(44));
    assert!(!has_audible_data(64));
    assert!(has_audible_data(65));
    assert!(has_audible_data(u64::MAX));
}

#[test]
fn merged_file_is_named_after_the_time() {
    assert_eq!(merged_file_name(1_700_000_123), "merged-1700000123.wav");
    assert_eq!(merged_file_name(0), "merged-0.wav");
}

#[test]
fn concat_command_line_keeps_the_order() {
    assert_eq!(
        build_concat_arguments("prior.wav", "new.wav", "merged.wav"),
        vec![
            "-y", "-i", "prior.wav", "-i", "new.wav", "-filter_complex",
            "[0:a][1:a]concat=n=2:v=0:a=1[a]", "-map", "[a]", "-ac", "1", "-ar", "16000",
            "merged.wav",
        ]
    );
}

#[test]
fn probe_command_line_asks_for_the_duration() {
    assert_eq!(
        build_probe_arguments("/a/original.wav"),
        vec![
            "-v", "error", "-show_entries", "format=duration", "-of",
            "default=noprint_wrappers=1:nokey=1", "/a/original.wav",
        ]
    );
}

#[test]
fn stop_errors_in_words() {
    assert_eq!(
        stop_error_message(StopError::SessionNotFound, Some("x")),
        "Recording session not found"
    );
    assert_eq!(
        stop_error_message(StopError::NotCreated, Some("permission denied")),
        "Recording file was not created. Native recorder error: permission denied"
    );
    assert_eq!(
        stop_error_message(StopError::NotCreated, None),
        "Recording file was not created. Ensure system/audio permissions are granted and that audio is actively playing during capture."
    );
    assert_eq!(
        stop_error_message(StopError::NoAudibleData, None),
        "Recording captured no audible data. Check source routing/permissions and try again while audio is playing."
    );
}

#[test]
fn recorder_that_exits_ends_the_wait() {
    let mut watch = ShutdownWatch::new();
    assert_eq!(watch.observe(ProcessProbe::Running), ShutdownAction::SleepThenProbe);
    assert_eq!(watch.observe(ProcessProbe::Running), ShutdownAction::SleepThenProbe);
    assert_eq!(watch.observe(ProcessProbe::Exited), ShutdownAction::Finished);
    assert_eq!(watch.polls, 2);
    assert_eq!(watch.waited_millis(), 200);
    let mut watch = ShutdownWatch::new();
    assert_eq!(watch.observe(ProcessProbe::Exited), ShutdownAction::Finished);
    assert_eq!(watch.waited_millis(), 0);
}

#[test]
fn recorder_that_cannot_be_probed_ends_the_wait() {
    let mut watch = ShutdownWatch::new();
    assert_eq!(watch.observe(ProcessProbe::Failed), ShutdownAction::Finished);
    assert_eq!(watch.polls, 0);
}

#[test]
fn recorder_that_keeps_running_is_killed_after_three_seconds() {
    let mut watch = ShutdownWatch::new();
    for _ in 0..29 {
        assert_eq!(watch.observe(ProcessProbe::Running), ShutdownAction::SleepThenProbe);
    }
    assert_eq!(watch.observe(ProcessProbe::Running), ShutdownAction::SleepThenKill);
    assert_eq!(watch.polls, 30);
    assert_eq!(watch.waited_millis(), 3000);
    assert_eq!(watch.observe(ProcessProbe::Running), ShutdownAction::SleepThenKill);
    assert_eq!(watch.polls, 30);
    assert_eq!(watch.observe(ProcessProbe::Exited), ShutdownAction::Finished);
    let mut late = ShutdownWatch { polls: u32::MAX };
    assert_eq!(late.observe(ProcessProbe::Running), ShutdownAction::SleepThenKill);
    assert_eq!(late.polls, u32::MAX);
    assert_eq!(late.waited_millis(), 429_496_729_500);
}

#[test]
fn pause_requests_that_hold_already_do_nothing() {
    assert_eq!(pause_action(false, false), PauseAction::Nothing);
    assert_eq!(pause_action(true, true), PauseAction::Nothing);
    assert_eq!(pause_action(false, true), PauseAction::Suspend);
    assert_eq!(pause_action(true, false), PauseAction::Continue);
}

#[test]
fn paused_recorder_continues_before_it_is_stopped() {
    assert_eq!(resume_before_stop(true), PauseAction::Continue);
    assert_eq!(resume_before_stop(false), PauseAction::Nothing);
}

#[test]
fn signals_are_sent_by_name_and_process() {
    assert_eq!(build_signal_arguments(4242, true), vec!["-STOP", "4242"]);
    assert_eq!(build_signal_arguments(1, false), vec!["-CONT", "1"]);
    assert_eq!(build_signal_arguments(u32::MAX, false), vec!["-CONT", "4294967295"]);
}

#[test]
fn pausing_fails_openly_where_there_are_no_signals() {
    assert_eq!(check_pause_support(true), Ok(()));
    assert_eq!(check_pause_support(false), Err(PauseError::Unsupported));
    assert_eq!(
        PauseError::Unsupported.message(),
        "Pause/resume is currently supported on macOS/Linux only"
    );
    assert_eq!(
        PauseError::SignalFailed.message(),
        "Failed to update recording pause state"
    );
}
