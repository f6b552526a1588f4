//! Entries and their life cycle.
//!
//! An entry moves through `new`, `recording`, `recorded`, `transcribed` and
//! `processed`, and becomes `edited` when its transcript or an artifact is
//! edited by hand. Nothing but the operations below changes the status.

use vstd::prelude::*;
use crate::text::str_eq;

verus! {

/// Where an entry stands in its life cycle.
#[derive(Clone, Copy, Debug, PartialEq, Eq, Hash, Structural)]
pub enum EntryStatus {
    New,
    Recording,
    Recorded,
    Transcribed,
    Processed,
    Edited,
}

/// What happened to an entry.
#[derive(Clone, Copy, Debug, PartialEq, Eq, Hash, Structural)]
pub enum EntryEvent {
    RecordingStarted,
    RecordingStopped,
    TranscriptionSucceeded,
    ArtifactGenerated,
    ManualEdit,
}

impl EntryStatus {
    /// The name under which the status is stored.
    pub open spec fn name(self) -> Seq<char> {
        match self {
            EntryStatus::New => "new"@,
            EntryStatus::Recording => "recording"@,
            EntryStatus::Recorded => "recorded"@,
            EntryStatus::Transcribed => "transcribed"@,
            EntryStatus::Processed => "processed"@,
            EntryStatus::Edited => "edited"@,
        }
    }

    /// The status that `name` names, if any.
    pub open spec fn named(name: Seq<char>) -> Option<EntryStatus> {
        if name == "new"@ {
            Some(EntryStatus::New)
        } else if name == "recording"@ {
            Some(EntryStatus::Recording)
        } else if name == "recorded"@ {
            Some(EntryStatus::Recorded)
        } else if name == "transcribed"@ {
            Some(EntryStatus::Transcribed)
        } else if name == "processed"@ {
            Some(EntryStatus::Processed)
        } else if name == "edited"@ {
            Some(EntryStatus::Edited)
        } else {
            None
        }
    }

    /// The name of the status.
    pub fn as_str(self) -> (s: &'static str)
        ensures
            s@ == self.name(),
    {
        match self {
            EntryStatus::New => "new",
            EntryStatus::Recording => "recording",
            EntryStatus::Recorded => "recorded",
            EntryStatus::Transcribed => "transcribed",
            EntryStatus::Processed => "processed",
            EntryStatus::Edited => "edited",
        }
    }

    /// Reads the name of a status.
    pub fn parse(name: &str) -> (r: Option<EntryStatus>)
        ensures
            r == EntryStatus::named(name@),
    {
        if str_eq(name, "new") {
            Some(EntryStatus::New)
        } else if str_eq(name, "recording") {
            Some(EntryStatus::Recording)
        } else if str_eq(name, "recorded") {
            Some(EntryStatus::Recorded)
        } else if str_eq(name, "transcribed") {
            Some(EntryStatus::Transcribed)
        } else if str_eq(name, "processed") {
            Some(EntryStatus::Processed)
        } else if str_eq(name, "edited") {
            Some(EntryStatus::Edited)
        } else {
            None
        }
    }

    /// The status that an entry has once `event` has happened to it.
    pub open spec fn after(event: EntryEvent) -> EntryStatus {
        match event {
            EntryEvent::RecordingStarted => EntryStatus::Recording,
            EntryEvent::RecordingStopped => EntryStatus::Recorded,
            EntryEvent::TranscriptionSucceeded => EntryStatus::Transcribed,
            EntryEvent::ArtifactGenerated => EntryStatus::Processed,
            EntryEvent::ManualEdit => EntryStatus::Edited,
        }
    }

    /// Whether `event` leads on from this status along the life cycle: a
    /// recording starts on a new entry and stops on a recording one,
    /// transcription follows a recording or an edit, generation follows a
    /// transcription or an edit, and an edit follows whatever left a
    /// transcript.
    pub open spec fn leads_on(self, event: EntryEvent) -> bool {
        match event {
            EntryEvent::RecordingStarted => self == EntryStatus::New,
            EntryEvent::RecordingStopped => self == EntryStatus::Recording,
            EntryEvent::TranscriptionSucceeded => self == EntryStatus::Recorded || self
                == EntryStatus::Edited,
            EntryEvent::ArtifactGenerated => self == EntryStatus::Transcribed || self
                == EntryStatus::Edited,
            EntryEvent::ManualEdit => self == EntryStatus::Transcribed || self
                == EntryStatus::Processed || self == EntryStatus::Edited,
        }
    }

    /// The status after `event`.
    pub fn on(event: EntryEvent) -> (status: EntryStatus)
        ensures
            status == EntryStatus::after(event),
    {
        match event {
            EntryEvent::RecordingStarted => EntryStatus::Recording,
            EntryEvent::RecordingStopped => EntryStatus::Recorded,
            EntryEvent::TranscriptionSucceeded => EntryStatus::Transcribed,
            EntryEvent::ArtifactGenerated => EntryStatus::Processed,
            EntryEvent::ManualEdit => EntryStatus::Edited,
        }
    }
}

/// The event that appending a transcript revision is for its entry.
pub fn transcript_event(is_manual_edit: bool) -> (event: EntryEvent)
    ensures
        event == if is_manual_edit {
            EntryEvent::ManualEdit
        } else {
            EntryEvent::TranscriptionSucceeded
        },
{
    if is_manual_edit {
        EntryEvent::ManualEdit
    } else {
        EntryEvent::TranscriptionSucceeded
    }
}

/// The event that appending an artifact revision is for its entry.
pub fn artifact_event(is_manual_edit: bool) -> (event: EntryEvent)
    ensures
        event == if is_manual_edit {
            EntryEvent::ManualEdit
        } else {
            EntryEvent::ArtifactGenerated
        },
{
    if is_manual_edit {
        EntryEvent::ManualEdit
    } else {
        EntryEvent::ArtifactGenerated
    }
}

/// Every status is found again under its own name.
pub proof fn lemma_status_name_round_trip(status: EntryStatus)
    ensures
        EntryStatus::named(status.name()) == Some(status),
{
    reveal_strlit("new");
    reveal_strlit("recording");
    reveal_strlit("recorded");
    reveal_strlit("transcribed");
    reveal_strlit("processed");
    reveal_strlit("edited");
    assert("new"@.len() == 3);
    assert("recording"@.len() == 9);
    assert("recorded"@.len() == 8);
    assert("transcribed"@.len() == 11);
    assert("processed"@.len() == 9);
    assert("edited"@.len() == 6);
    assert("recording"@[8] == 'g');
    assert("processed"@[8] == 'd');
}

/// Recording, transcribing and processing a new entry takes it through the
/// statuses in their order, each event leading on from the one before.
pub proof fn lemma_life_cycle_in_order()
    ensures
        EntryStatus::New.leads_on(EntryEvent::RecordingStarted),
        EntryStatus::after(EntryEvent::RecordingStarted).leads_on(EntryEvent::RecordingStopped),
        EntryStatus::after(EntryEvent::RecordingStopped).leads_on(
            EntryEvent::TranscriptionSucceeded,
        ),
        EntryStatus::after(EntryEvent::TranscriptionSucceeded).leads_on(
            EntryEvent::ArtifactGenerated,
        ),
        forall|event: EntryEvent|
            event != EntryEvent::RecordingStarted && event != EntryEvent::RecordingStopped
                ==> #[trigger] EntryStatus::after(event).leads_on(EntryEvent::ManualEdit),
        EntryStatus::after(EntryEvent::ManualEdit).leads_on(EntryEvent::TranscriptionSucceeded),
        EntryStatus::after(EntryEvent::ManualEdit).leads_on(EntryEvent::ArtifactGenerated),
{
}

/// A recorded call with its audio.
#[derive(Debug)]
pub struct Entry {
    pub id: String,
    pub folder_id: String,
    pub title: String,
    pub status: EntryStatus,
    pub duration_sec: i64,
    /// The finalized audio file, once there is one.
    pub recording_path: Option<String>,
    pub created_at: String,
    pub updated_at: String,
    /// When the entry was moved to the trash, if it is there.
    pub deleted_at: Option<String>,
}

/// An entry with its texts as sequences.
pub struct EntryView {
    pub id: Seq<char>,
    pub folder_id: Seq<char>,
    pub title: Seq<char>,
    pub status: EntryStatus,
    pub duration_sec: i64,
    pub recording_path: Option<Seq<char>>,
    pub created_at: Seq<char>,
    pub updated_at: Seq<char>,
    pub deleted_at: Option<Seq<char>>,
}

impl View for Entry {
    type V = EntryView;

    open spec fn view(&self) -> EntryView {
        EntryView {
            id: self.id@,
            folder_id: self.folder_id@,
            title: self.title@,
            status: self.status,
            duration_sec: self.duration_sec,
            recording_path: match self.recording_path {
                Some(p) => Some(p@),
                None => None,
            },
            created_at: self.created_at@,
            updated_at: self.updated_at@,
            deleted_at: match self.deleted_at {
                Some(d) => Some(d@),
                None => None,
            },
        }
    }
}

/// Why an operation on an entry is refused.
#[derive(Clone, Copy, Debug, PartialEq, Eq, Structural)]
pub enum EntryError {
    /// The entry is in the trash.
    Deleted,
    /// The entry has no recording to transcribe.
    NoRecording,
}

impl EntryError {
    /// The error in words.
    pub open spec fn text(self) -> Seq<char> {
        match self {
            EntryError::Deleted => "Entry not found or deleted"@,
            EntryError::NoRecording => "No recording found for this entry"@,
        }
    }

    /// The error in words.
    pub fn message(self) -> (s: &'static str)
        ensures
            s@ == self.text(),
    {
        match self {
            EntryError::Deleted => "Entry not found or deleted",
            EntryError::NoRecording => "No recording found for this entry",
        }
    }
}

impl EntryView {
    /// The entry after `event` at the time `now`: in the status that the
    /// event leads to, and updated then.
    pub open spec fn after(self, event: EntryEvent, now: Seq<char>) -> EntryView {
        EntryView { status: EntryStatus::after(event), updated_at: now, ..self }
    }
}

impl Entry {
    /// An entry as it is created in `folder_id`: new, without audio.
    pub fn new(id: String, folder_id: String, title: String, now: &str) -> (entry: Entry)
        ensures
            entry@ == (EntryView {
                id: id@,
                folder_id: folder_id@,
                title: title@,
                status: EntryStatus::New,
                duration_sec: 0,
                recording_path: None,
                created_at: now@,
                updated_at: now@,
                deleted_at: None,
            }),
    {
        Entry {
            id,
            folder_id,
            title,
            status: EntryStatus::New,
            duration_sec: 0,
            recording_path: None,
            created_at: now.to_owned(),
            updated_at: now.to_owned(),
            deleted_at: None,
        }
    }

    /// Whether the entry is in the trash.
    pub fn is_deleted(&self) -> (r: bool)
        ensures
            r == self@.deleted_at is Some,
    {
        self.deleted_at.is_some()
    }

    /// Records that `event` happened at the time `now`. An entry in the
    /// trash takes no event and stays as it is.
    pub fn record(&mut self, event: EntryEvent, now: String) -> (r: Result<(), EntryError>)
        ensures
            r is Ok <==> old(self)@.deleted_at is None,
            r is Ok ==> final(self)@ == old(self)@.after(event, now@),
            r matches Err(e) ==> e == EntryError::Deleted && final(self)@ == old(self)@,
    {
        if self.deleted_at.is_some() {
            return Err(EntryError::Deleted);
        }
        self.status = EntryStatus::on(event);
        self.updated_at = now;
        Ok(())
    }

    /// Records that a recording of the entry has stopped with the audio at
    /// `path`, `duration_sec` seconds long.
    pub fn finish_recording(&mut self, path: String, duration_sec: i64, now: String)
        ensures
            final(self)@ == (EntryView {
                recording_path: Some(path@),
                duration_sec,
                ..old(self)@.after(EntryEvent::RecordingStopped, now@)
            }),
    {
        self.status = EntryStatus::Recorded;
        self.recording_path = Some(path);
        self.duration_sec = duration_sec;
        self.updated_at = now;
    }

    /// The recording that a transcription of the entry reads.
    pub fn recording_to_transcribe(&self) -> (r: Result<&str, EntryError>)
        ensures
            r is Ok <==> self@.deleted_at is None && self@.recording_path is Some,
            r matches Ok(path) ==> Some(path@) == self@.recording_path,
            r matches Err(e) ==> e == if self@.deleted_at is Some {
                EntryError::Deleted
            } else {
                EntryError::NoRecording
            },
    {
        if self.deleted_at.is_some() {
            return Err(EntryError::Deleted);
        }
        match &self.recording_path {
            Some(path) => Ok(path.as_str()),
            None => Err(EntryError::NoRecording),
        }
    }
}

/// What can be moved to the trash, restored and purged.
#[derive(Clone, Copy, Debug, PartialEq, Eq, Structural)]
pub enum EntityKind {
    Entry,
    Folder,
}

impl EntityKind {
    /// The kind that `name` names, if any.
    pub open spec fn named(name: Seq<char>) -> Option<EntityKind> {
        if name == "entry"@ {
            Some(EntityKind::Entry)
        } else if name == "folder"@ {
            Some(EntityKind::Folder)
        } else {
            None
        }
    }

    /// Reads the kind of an entity. Any other name is refused with
    /// `Unknown entity type`.
    pub fn parse(name: &str) -> (r: Result<EntityKind, &'static str>)
        ensures
            match r {
                Ok(kind) => EntityKind::named(name@) == Some(kind),
                Err(message) => EntityKind::named(name@) is None && message@
                    == "Unknown entity type"@,
            },
    {
        if str_eq(name, "entry") {
            Ok(EntityKind::Entry)
        } else if str_eq(name, "folder") {
            Ok(EntityKind::Folder)
        } else {
            Err("Unknown entity type")
        }
    }
}

} // verus!
