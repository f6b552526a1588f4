use ai_transcribe_local::entry::{
    artifact_event, transcript_event, EntityKind, Entry, EntryError, EntryEvent, EntryStatus,
};

fn entry() -> Entry {
    Entry::new("e1".to_string(), "f1".to_string(), "Call".to_string(), "t0")
}

const ALL: [EntryStatus; 6] = [
    EntryStatus::New,
    EntryStatus::Recording,
    EntryStatus::Recorded,
    EntryStatus::Transcribed,
    EntryStatus::Processed,
    EntryStatus::Edited,
];

#[test]
fn a_created_entry_is_new() {
    let e = entry();
    assert_eq!(e.status, EntryStatus::New);
    assert_eq!(e.duration_sec, 0);
    assert!(e.recording_path.is_none());
    assert!(e.deleted_at.is_none());
    assert_eq!((e.id.as_str(), e.folder_id.as_str(), e.title.as_str()), ("e1", "f1", "Call"));
    assert_eq!((e.created_at.as_str(), e.updated_at.as_str()), ("t0", "t0"));
    assert!(!e.is_deleted());
}

#[test]
fn status_names_round_trip() {
    let names = ["new", "recording", "recorded", "transcribed", "processed", "edited"];
    for (status, name) in ALL.iter().zip(names) {
        assert_eq!(status.as_str(), name);
        assert_eq!(EntryStatus::parse(name), Some(*status));
    }
    for bad in ["", "New", "recorded ", "done", "record"] {
        assert_eq!(EntryStatus::parse(bad), None);
    }
}

#[test]
fn recording_takes_a_new_entry_to_recorded() {
    let mut e = entry();
    assert_eq!(e.record(EntryEvent::RecordingStarted, "t1".to_string()), Ok(()));
    assert_eq!(e.status, EntryStatus::Recording);
    assert_eq!(e.updated_at, "t1");
    assert_eq!(e.created_at, "t0");
    e.finish_recording("/a/original.wav".to_string(), 12, "t2".to_string());
    assert_eq!(e.status, EntryStatus::Recorded);
    assert_eq!(e.recording_path.as_deref(), Some("/a/original.wav"));
    assert_eq!(e.duration_sec, 12);
    assert_eq!(e.updated_at, "t2");
    assert_eq!((e.id.as_str(), e.folder_id.as_str(), e.title.as_str()), ("e1", "f1", "Call"));
}

#[test]
fn the_life_cycle_runs_in_order() {
    let mut e = entry();
    let events = [
        (EntryEvent::RecordingStarted, EntryStatus::Recording),
        (EntryEvent::RecordingStopped, EntryStatus::Recorded),
        (EntryEvent::TranscriptionSucceeded, EntryStatus::Transcribed),
        (EntryEvent::ArtifactGenerated, EntryStatus::Processed),
        (EntryEvent::ManualEdit, EntryStatus::Edited),
        (EntryEvent::TranscriptionSucceeded, EntryStatus::Transcribed),
        (EntryEvent::ManualEdit, EntryStatus::Edited),
        (EntryEvent::ArtifactGenerated, EntryStatus::Processed),
    ];
    for (event, status) in events {
        assert_eq!(EntryStatus::on(event), status);
        assert_eq!(e.record(event, "t".to_string()), Ok(()));
        assert_eq!(e.status, status);
    }
}

#[test]
fn an_entry_in_the_trash_takes_no_event() {
    let mut e = entry();
    e.deleted_at = Some("t9".to_string());
    assert!(e.is_deleted());
    assert_eq!(
        e.record(EntryEvent::RecordingStarted, "t1".to_string()),
        Err(EntryError::Deleted)
    );
    assert_eq!(e.status, EntryStatus::New);
    assert_eq!(e.updated_at, "t0");
    assert_eq!(e.recording_to_transcribe(), Err(EntryError::Deleted));
    assert_eq!(EntryError::Deleted.message(), "Entry not found or deleted");
}

#[test]
fn transcription_needs_a_recording() {
    let mut e = entry();
    assert_eq!(e.recording_to_transcribe(), Err(EntryError::NoRecording));
    assert_eq!(EntryError::NoRecording.message(), "No recording found for this entry");
    e.finish_recording("/a/original.wav".to_string(), 3, "t".to_string());
    assert_eq!(e.recording_to_transcribe(), Ok("/a/original.wav"));
}

#[test]
fn appends_are_events_of_their_entry() {
    assert_eq!(transcript_event(false), EntryEvent::TranscriptionSucceeded);
    assert_eq!(transcript_event(true), EntryEvent::ManualEdit);
    assert_eq!(artifact_event(false), EntryEvent::ArtifactGenerated);
    assert_eq!(artifact_event(true), EntryEvent::ManualEdit);
    assert_eq!(EntryStatus::on(transcript_event(false)), EntryStatus::Transcribed);
    assert_eq!(EntryStatus::on(transcript_event(true)), EntryStatus::Edited);
    assert_eq!(EntryStatus::on(artifact_event(false)), EntryStatus::Processed);
    assert_eq!(EntryStatus::on(artifact_event(true)), EntryStatus::Edited);
}

#[test]
fn entity_kinds_are_read_by_name() {
    assert_eq!(EntityKind::parse("entry"), Ok(EntityKind::Entry));
    assert_eq!(EntityKind::parse("folder"), Ok(EntityKind::Folder));
    for bad in ["", "Entry", "folders", "file"] {
        assert_eq!(EntityKind::parse(bad), Err("Unknown entity type"));
    }
}
