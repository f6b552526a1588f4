//! The steps that carry the results of recording, transcription and
//! generation into the store and onto the entry.
//!
//! Each step changes the store and the entry together or not at all, so that
//! a caller who writes both out in one transaction keeps them in step.

use vstd::prelude::*;
use crate::artifact::ArtifactType;
use crate::entry::{artifact_event, transcript_event, Entry, EntryEvent, EntryStatus};
use crate::identity::{is_identifier, now_timestamp};
use crate::registry::{RecordingSession, SessionRegistry};
use crate::revisions::{
    has_any_transcript, latest_artifact_version, latest_transcript_version, ArtifactView,
    RevisionError, TranscriptView,
};
use crate::store::RevisionStore;
use crate::text::trimmed;
use crate::transcription::has_text;

verus! {

/// Why a step was refused.
#[derive(Clone, Copy, Debug, PartialEq, Eq, Structural)]
pub enum StepError {
    /// The entry is in the trash.
    EntryDeleted,
    /// The transcript holds nothing but whitespace.
    EmptyTranscript,
    /// The entry has no transcript to derive an artifact from.
    NoTranscript,
    /// The next version would not fit in 64 bits.
    VersionsExhausted,
}

/// The event that a transcript revision is for its entry: an edit if made by
/// hand, else a transcription.
pub open spec fn transcript_event_of(is_manual_edit: bool) -> EntryEvent {
    if is_manual_edit {
        EntryEvent::ManualEdit
    } else {
        EntryEvent::TranscriptionSucceeded
    }
}

/// The event that an artifact revision is for its entry: an edit if made by
/// hand, else a generation.
pub open spec fn artifact_event_of(is_manual_edit: bool) -> EntryEvent {
    if is_manual_edit {
        EntryEvent::ManualEdit
    } else {
        EntryEvent::ArtifactGenerated
    }
}

/// Why a transcript of `text` cannot be recorded for the entry, if it cannot:
/// the entry is in the trash, a transcription came back blank, or the
/// versions are used up. An edit may be blank.
pub open spec fn transcript_refusal(
    deleted: bool,
    text: Seq<char>,
    is_manual_edit: bool,
    latest: int,
) -> Option<StepError> {
    if deleted {
        Some(StepError::EntryDeleted)
    } else if !is_manual_edit && trimmed(text).len() == 0 {
        Some(StepError::EmptyTranscript)
    } else if latest >= i64::MAX {
        Some(StepError::VersionsExhausted)
    } else {
        None
    }
}

/// Why an artifact cannot be recorded for the entry, if it cannot: the entry
/// is in the trash, has no transcript, or the versions are used up.
pub open spec fn artifact_refusal(deleted: bool, has_transcript: bool, latest: int) -> Option<
    StepError,
> {
    if deleted {
        Some(StepError::EntryDeleted)
    } else if !has_transcript {
        Some(StepError::NoTranscript)
    } else if latest >= i64::MAX {
        Some(StepError::VersionsExhausted)
    } else {
        None
    }
}

/// Records a transcript of the entry, transcribed or edited by hand: a
/// revision is appended to the store, which marks the entry's artifacts
/// stale, and the entry is transcribed or edited from now on. The revision
/// gets a fresh identifier, and it and the entry the time of the step. A
/// refused step changes nothing.
pub fn record_transcript(
    store: &mut RevisionStore,
    entry: &mut Entry,
    text: &str,
    language: &str,
    is_manual_edit: bool,
) -> (r: Result<i64, StepError>)
    ensures
        match r {
            Ok(version) => {
                &&& transcript_refusal(
                    old(entry)@.deleted_at is Some,
                    text@,
                    is_manual_edit,
                    latest_transcript_version(old(store)@.transcripts, old(entry)@.id),
                ) is None
                &&& version == latest_transcript_version(old(store)@.transcripts, old(entry)@.id)
                    + 1
                &&& final(store)@.transcripts.len() == old(store)@.transcripts.len() + 1
                &&& is_identifier(final(store)@.transcripts.last().id)
                &&& final(store)@ == old(store)@.append_transcript(
                    TranscriptView {
                        id: final(store)@.transcripts.last().id,
                        entry_id: old(entry)@.id,
                        version: 0,
                        text: text@,
                        language: language@,
                        is_manual_edit,
                        created_at: final(store)@.transcripts.last().created_at,
                    },
                )
                &&& final(entry)@ == old(entry)@.after(
                    transcript_event_of(is_manual_edit),
                    final(entry)@.updated_at,
                )
            },
            Err(e) => {
                &&& transcript_refusal(
                    old(entry)@.deleted_at is Some,
                    text@,
                    is_manual_edit,
                    latest_transcript_version(old(store)@.transcripts, old(entry)@.id),
                ) == Some(e)
                &&& final(store)@ == old(store)@
                &&& final(entry)@ == old(entry)@
            },
        },
{
    if entry.is_deleted() {
        return Err(StepError::EntryDeleted);
    }
    if !is_manual_edit && !has_text(text) {
        return Err(StepError::EmptyTranscript);
    }
    match store.append_transcript(entry.id.as_str(), text, language, is_manual_edit) {
        Ok(version) => {
            entry.status = EntryStatus::on(transcript_event(is_manual_edit));
            entry.updated_at = now_timestamp();
            Ok(version)
        },
        Err(_) => Err(StepError::VersionsExhausted),
    }
}

/// Records an artifact of the entry, generated or edited by hand: a revision
/// of the kind is appended to the store, made from the entry's latest
/// transcript and not stale, and the entry is processed or edited from now
/// on. The revision gets a fresh identifier, and it and the entry the time of
/// the step. A refused step changes nothing.
pub fn record_artifact(
    store: &mut RevisionStore,
    entry: &mut Entry,
    kind: ArtifactType,
    text: &str,
    is_manual_edit: bool,
) -> (r: Result<i64, StepError>)
    ensures
        match r {
            Ok(version) => {
                &&& artifact_refusal(
                    old(entry)@.deleted_at is Some,
                    has_any_transcript(old(store)@.transcripts, old(entry)@.id),
                    latest_artifact_version(old(store)@.artifacts, old(entry)@.id, kind),
                ) is None
                &&& version == latest_artifact_version(
                    old(store)@.artifacts,
                    old(entry)@.id,
                    kind,
                ) + 1
                &&& final(store)@.artifacts.len() == old(store)@.artifacts.len() + 1
                &&& is_identifier(final(store)@.artifacts.last().id)
                &&& final(store)@ == old(store)@.append_artifact(
                    ArtifactView {
                        id: final(store)@.artifacts.last().id,
                        entry_id: old(entry)@.id,
                        artifact_type: kind,
                        version: 0,
                        text: text@,
                        source_transcript_version: 0,
                        is_stale: false,
                        is_manual_edit,
                        created_at: final(store)@.artifacts.last().created_at,
                    },
                )
                &&& final(entry)@ == old(entry)@.after(
                    artifact_event_of(is_manual_edit),
                    final(entry)@.updated_at,
                )
            },
            Err(e) => {
                &&& artifact_refusal(
                    old(entry)@.deleted_at is Some,
                    has_any_transcript(old(store)@.transcripts, old(entry)@.id),
                    latest_artifact_version(old(store)@.artifacts, old(entry)@.id, kind),
                ) == Some(e)
                &&& final(store)@ == old(store)@
                &&& final(entry)@ == old(entry)@
            },
        },
{
    if entry.is_deleted() {
        return Err(StepError::EntryDeleted);
    }
    match store.append_artifact(entry.id.as_str(), kind, text, is_manual_edit) {
        Ok(version) => {
            entry.status = EntryStatus::on(artifact_event(is_manual_edit));
            entry.updated_at = now_timestamp();
            Ok(version)
        },
        Err(RevisionError::NoTranscript) => Err(StepError::NoTranscript),
        Err(RevisionError::VersionsExhausted) => Err(StepError::VersionsExhausted),
    }
}

/// Registers the session of a recorder that runs, and marks its entry as
/// recording from now on. An entry in the trash gets no session; then
/// nothing changes, and the session is handed back.
pub fn open_session<H>(
    registry: &mut SessionRegistry<H>,
    entry: &mut Entry,
    session: RecordingSession<H>,
) -> (r: Result<String, RecordingSession<H>>)
    ensures
        r is Ok <==> old(entry)@.deleted_at is None,
        match r {
            Ok(id) => {
                &&& is_identifier(id@)
                &&& final(registry)@ == old(registry)@.insert(id@, session@)
                &&& final(entry)@ == old(entry)@.after(
                    EntryEvent::RecordingStarted,
                    final(entry)@.updated_at,
                )
            },
            Err(back) => {
                &&& back == session
                &&& final(registry)@ == old(registry)@
                &&& final(entry)@ == old(entry)@
            },
        },
{
    if entry.is_deleted() {
        return Err(session);
    }
    entry.status = EntryStatus::on(EntryEvent::RecordingStarted);
    entry.updated_at = now_timestamp();
    Ok(registry.register(session))
}

} // verus!
