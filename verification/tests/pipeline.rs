use ai_transcribe_local::artifact::ArtifactType;
use ai_transcribe_local::entry::{Entry, EntryStatus};
use ai_transcribe_local::pipeline::{open_session, record_artifact, record_transcript, StepError};
use ai_transcribe_local::registry::{RecordingSession, SessionRegistry};
use ai_transcribe_local::revisions::{ArtifactRevision, Restored, TranscriptRevision};
use ai_transcribe_local::store::RevisionStore;

fn entry(id: &str) -> Entry {
    Entry::new(id.to_string(), "f".to_string(), "Call".to_string(), "t0")
}

#[test]
fn transcription_then_generation_then_edit() {
    let mut store = RevisionStore::new();
    let mut e = entry("e1");
    assert_eq!(record_transcript(&mut store, &mut e, "hello", "en", false), Ok(1));
    assert_eq!(e.status, EntryStatus::Transcribed);
    assert_ne!(e.updated_at, "t0");
    assert_eq!(e.created_at, "t0");
    assert_eq!(record_artifact(&mut store, &mut e, ArtifactType::Summary, "sum", false), Ok(1));
    assert_eq!(e.status, EntryStatus::Processed);
    assert_eq!(record_transcript(&mut store, &mut e, "hello world", "en", true), Ok(2));
    assert_eq!(e.status, EntryStatus::Edited);
    assert!(store.artifacts()[0].is_stale);
    assert_eq!(record_artifact(&mut store, &mut e, ArtifactType::Summary, "mine", true), Ok(2));
    assert_eq!(e.status, EntryStatus::Edited);
    let latest = store.latest_artifact_by_type("e1", ArtifactType::Summary).unwrap();
    assert_eq!(latest.source_transcript_version, 2);
    assert!(!latest.is_stale);
    assert!(latest.is_manual_edit);
    assert_eq!(record_artifact(&mut store, &mut e, ArtifactType::Analysis, "an", false), Ok(1));
    assert_eq!(e.status, EntryStatus::Processed);
    assert_eq!((e.id.as_str(), e.title.as_str()), ("e1", "Call"));
}

#[test]
fn steps_on_an_entry_in_the_trash_change_nothing() {
    let mut store = RevisionStore::new();
    let mut e = entry("e1");
    record_transcript(&mut store, &mut e, "hello", "en", false).unwrap();
    e.deleted_at = Some("gone".to_string());
    let updated = e.updated_at.clone();
    assert_eq!(
        record_transcript(&mut store, &mut e, "again", "en", true),
        Err(StepError::EntryDeleted)
    );
    assert_eq!(
        record_artifact(&mut store, &mut e, ArtifactType::Summary, "s", false),
        Err(StepError::EntryDeleted)
    );
    assert_eq!(store.transcripts().len(), 1);
    assert!(store.artifacts().is_empty());
    assert_eq!(e.status, EntryStatus::Transcribed);
    assert_eq!(e.updated_at, updated);
}

#[test]
fn a_blank_transcription_is_refused_but_a_blank_edit_is_taken() {
    let mut store = RevisionStore::new();
    let mut e = entry("e1");
    for blank in ["", "  \n\t ", "\u{a0}"] {
        assert_eq!(
            record_transcript(&mut store, &mut e, blank, "en", false),
            Err(StepError::EmptyTranscript)
        );
    }
    assert!(store.transcripts().is_empty());
    assert_eq!(e.status, EntryStatus::New);
    assert_eq!(e.updated_at, "t0");
    assert_eq!(record_transcript(&mut store, &mut e, "", "en", true), Ok(1));
    assert_eq!(e.status, EntryStatus::Edited);
}

#[test]
fn an_artifact_needs_a_transcript_of_its_entry() {
    let mut store = RevisionStore::new();
    let mut other = entry("other");
    record_transcript(&mut store, &mut other, "hello", "en", false).unwrap();
    let mut e = entry("e1");
    assert_eq!(
        record_artifact(&mut store, &mut e, ArtifactType::Summary, "s", false),
        Err(StepError::NoTranscript)
    );
    assert_eq!(
        record_artifact(&mut store, &mut e, ArtifactType::Summary, "s", true),
        Err(StepError::NoTranscript)
    );
    assert_eq!(e.status, EntryStatus::New);
    assert!(store.artifacts().is_empty());
}

#[test]
fn opening_a_session_marks_the_entry_as_recording() {
    let mut registry: SessionRegistry<u8> = SessionRegistry::new();
    let mut e = entry("e1");
    let session = RecordingSession {
        entry_id: "e1".to_string(),
        output_path: "/a/original.wav".to_string(),
        existing_path: None,
        paused: false,
        handle: 9,
    };
    let id = open_session(&mut registry, &mut e, session).unwrap();
    assert_eq!(e.status, EntryStatus::Recording);
    assert_ne!(e.updated_at, "t0");
    assert_eq!(registry.get(&id).unwrap().handle, 9);
    assert_eq!(registry.get(&id).unwrap().entry_id, "e1");
}

#[test]
fn an_entry_in_the_trash_gets_no_session() {
    let mut registry: SessionRegistry<u8> = SessionRegistry::new();
    let mut e = entry("e1");
    e.deleted_at = Some("gone".to_string());
    let session = RecordingSession {
        entry_id: "e1".to_string(),
        output_path: "/a/original.wav".to_string(),
        existing_path: Some("/a/prior.wav".to_string()),
        paused: false,
        handle: 9,
    };
    let back = open_session(&mut registry, &mut e, session).unwrap_err();
    assert_eq!(back.handle, 9);
    assert_eq!(back.existing_path.as_deref(), Some("/a/prior.wav"));
    assert_eq!(e.status, EntryStatus::New);
    assert_eq!(e.updated_at, "t0");
}

#[test]
fn steps_are_refused_when_the_versions_are_used_up() {
    let mut store = RevisionStore::new();
    let mut e = entry("e1");
    let last = TranscriptRevision {
        id: "t".to_string(),
        entry_id: "e1".to_string(),
        version: i64::MAX,
        text: "x".to_string(),
        language: "en".to_string(),
        is_manual_edit: false,
        created_at: "t0".to_string(),
    };
    assert_eq!(store.restore_transcript(last), Restored::Added);
    assert_eq!(
        record_transcript(&mut store, &mut e, "more", "en", false),
        Err(StepError::VersionsExhausted)
    );
    let last = ArtifactRevision {
        id: "a".to_string(),
        entry_id: "e1".to_string(),
        artifact_type: ArtifactType::Summary,
        version: i64::MAX,
        text: "x".to_string(),
        source_transcript_version: i64::MAX,
        is_stale: false,
        is_manual_edit: false,
        created_at: "t0".to_string(),
    };
    assert_eq!(store.restore_artifact(last), Restored::Added);
    assert_eq!(
        record_artifact(&mut store, &mut e, ArtifactType::Summary, "more", false),
        Err(StepError::VersionsExhausted)
    );
    assert_eq!(e.status, EntryStatus::New);
    assert_eq!(e.updated_at, "t0");
    assert_eq!(store.transcripts().len(), 1);
    assert_eq!(store.artifacts().len(), 1);
    assert_eq!(record_artifact(&mut store, &mut e, ArtifactType::Analysis, "an", false), Ok(1));
}
