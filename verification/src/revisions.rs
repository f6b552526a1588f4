//! Versioned history of transcripts and of the artifacts derived from them.
//!
//! Revisions are append-only. Each entry numbers its transcript revisions
//! from one, and each artifact kind of an entry numbers its revisions from
//! one. An artifact revision records the transcript version it was made from,
//! and is marked stale as soon as a later transcript revision is appended.

use vstd::prelude::*;
use crate::artifact::ArtifactType;

verus! {

/// One version of an entry's transcript.
#[derive(Debug)]
pub struct TranscriptRevision {
    pub id: String,
    pub entry_id: String,
    pub version: i64,
    pub text: String,
    pub language: String,
    pub is_manual_edit: bool,
    pub created_at: String,
}

/// One version of an artifact of an entry.
#[derive(Debug)]
pub struct ArtifactRevision {
    pub id: String,
    pub entry_id: String,
    pub artifact_type: ArtifactType,
    pub version: i64,
    pub text: String,
    pub source_transcript_version: i64,
    pub is_stale: bool,
    pub is_manual_edit: bool,
    pub created_at: String,
}

/// A transcript revision with its texts as sequences.
pub struct TranscriptView {
    pub id: Seq<char>,
    pub entry_id: Seq<char>,
    pub version: int,
    pub text: Seq<char>,
    pub language: Seq<char>,
    pub is_manual_edit: bool,
    pub created_at: Seq<char>,
}

/// An artifact revision with its texts as sequences.
pub struct ArtifactView {
    pub id: Seq<char>,
    pub entry_id: Seq<char>,
    pub artifact_type: ArtifactType,
    pub version: int,
    pub text: Seq<char>,
    pub source_transcript_version: int,
    pub is_stale: bool,
    pub is_manual_edit: bool,
    pub created_at: Seq<char>,
}

impl View for TranscriptRevision {
    type V = TranscriptView;

    open spec fn view(&self) -> TranscriptView {
        TranscriptView {
            id: self.id@,
            entry_id: self.entry_id@,
            version: self.version as int,
            text: self.text@,
            language: self.language@,
            is_manual_edit: self.is_manual_edit,
            created_at: self.created_at@,
        }
    }
}

impl View for ArtifactRevision {
    type V = ArtifactView;

    open spec fn view(&self) -> ArtifactView {
        ArtifactView {
            id: self.id@,
            entry_id: self.entry_id@,
            artifact_type: self.artifact_type,
            version: self.version as int,
            text: self.text@,
            source_transcript_version: self.source_transcript_version as int,
            is_stale: self.is_stale,
            is_manual_edit: self.is_manual_edit,
            created_at: self.created_at@,
        }
    }
}

impl ArtifactView {
    /// The same revision, marked stale.
    pub open spec fn stale(self) -> ArtifactView {
        ArtifactView { is_stale: true, ..self }
    }

    /// The revision as it stands once a transcript revision was appended for
    /// `entry`: stale if it belongs to that entry, untouched otherwise.
    pub open spec fn superseded_for(self, entry: Seq<char>) -> ArtifactView {
        if self.entry_id == entry {
            self.stale()
        } else {
            self
        }
    }
}

/// The highest version among the transcript revisions of `entry`; zero if it
/// has none.
pub open spec fn latest_transcript_version(ts: Seq<TranscriptView>, entry: Seq<char>) -> int
    decreases ts.len(),
{
    if ts.len() == 0 {
        0
    } else {
        let rest = latest_transcript_version(ts.drop_last(), entry);
        let t = ts.last();
        if t.entry_id == entry && t.version > rest {
            t.version
        } else {
            rest
        }
    }
}

/// The highest version among the revisions of kind `kind` of `entry`; zero if
/// there is none.
pub open spec fn latest_artifact_version(
    arts: Seq<ArtifactView>,
    entry: Seq<char>,
    kind: ArtifactType,
) -> int
    decreases arts.len(),
{
    if arts.len() == 0 {
        0
    } else {
        let rest = latest_artifact_version(arts.drop_last(), entry, kind);
        let a = arts.last();
        if a.entry_id == entry && a.artifact_type == kind && a.version > rest {
            a.version
        } else {
            rest
        }
    }
}

/// Whether `entry` has a transcript revision with version `version`.
pub open spec fn has_transcript(ts: Seq<TranscriptView>, entry: Seq<char>, version: int) -> bool {
    exists|k: int|
        0 <= k < ts.len() && (#[trigger] ts[k]).entry_id == entry && ts[k].version == version
}

/// Whether `entry` has a revision of kind `kind` with version `version`.
pub open spec fn has_artifact(
    arts: Seq<ArtifactView>,
    entry: Seq<char>,
    kind: ArtifactType,
    version: int,
) -> bool {
    exists|k: int|
        0 <= k < arts.len() && (#[trigger] arts[k]).entry_id == entry && arts[k].artifact_type
            == kind && arts[k].version == version
}

/// Whether `entry` has any transcript revision.
pub open spec fn has_any_transcript(ts: Seq<TranscriptView>, entry: Seq<char>) -> bool {
    exists|k: int| 0 <= k < ts.len() && (#[trigger] ts[k]).entry_id == entry
}

/// Whether `entry` has any revision of kind `kind`.
pub open spec fn has_any_artifact(
    arts: Seq<ArtifactView>,
    entry: Seq<char>,
    kind: ArtifactType,
) -> bool {
    exists|k: int|
        0 <= k < arts.len() && (#[trigger] arts[k]).entry_id == entry && arts[k].artifact_type
            == kind
}

/// The revisions of a set of entries.
pub struct StoreView {
    pub transcripts: Seq<TranscriptView>,
    pub artifacts: Seq<ArtifactView>,
}

impl StoreView {
    /// The invariant of a store: versions start at one, no entry has two
    /// transcript revisions of one version, no kind of an entry has two
    /// revisions of one version, and every artifact revision was made from a
    /// transcript revision that its entry has.
    pub open spec fn wf(self) -> bool {
        &&& forall|i: int|
            0 <= i < self.transcripts.len() ==> (#[trigger] self.transcripts[i]).version >= 1
        &&& forall|i: int, j: int|
            0 <= i < j < self.transcripts.len() && (#[trigger] self.transcripts[i]).entry_id == (
            #[trigger] self.transcripts[j]).entry_id ==> self.transcripts[i].version
                != self.transcripts[j].version
        &&& forall|i: int|
            0 <= i < self.artifacts.len() ==> (#[trigger] self.artifacts[i]).version >= 1
        &&& forall|i: int, j: int|
            0 <= i < j < self.artifacts.len() && (#[trigger] self.artifacts[i]).entry_id == (
            #[trigger] self.artifacts[j]).entry_id && self.artifacts[i].artifact_type
                == self.artifacts[j].artifact_type ==> self.artifacts[i].version
                != self.artifacts[j].version
        &&& forall|i: int|
            0 <= i < self.artifacts.len() ==> has_transcript(
                self.transcripts,
                (#[trigger] self.artifacts[i]).entry_id,
                self.artifacts[i].source_transcript_version,
            )
    }

    /// The store with `t` added as it is, and every artifact revision of
    /// `t`'s entry marked stale.
    pub open spec fn with_transcript(self, t: TranscriptView) -> StoreView {
        StoreView {
            transcripts: self.transcripts.push(t),
            artifacts: self.artifacts.map_values(|a: ArtifactView| a.superseded_for(t.entry_id)),
        }
    }

    /// The store with `t` added as it is, and the artifacts as they are.
    pub open spec fn holding_transcript(self, t: TranscriptView) -> StoreView {
        StoreView { transcripts: self.transcripts.push(t), artifacts: self.artifacts }
    }

    /// The store with `a` added as it is.
    pub open spec fn with_artifact(self, a: ArtifactView) -> StoreView {
        StoreView { transcripts: self.transcripts, artifacts: self.artifacts.push(a) }
    }

    /// `draft` as it is appended: with the version after the latest of its
    /// entry.
    pub open spec fn numbered_transcript(self, draft: TranscriptView) -> TranscriptView {
        TranscriptView {
            version: latest_transcript_version(self.transcripts, draft.entry_id) + 1,
            ..draft
        }
    }

    /// `draft` as it is appended: with the version after the latest of its
    /// entry and kind, made from the entry's latest transcript, and not stale.
    pub open spec fn numbered_artifact(self, draft: ArtifactView) -> ArtifactView {
        ArtifactView {
            version: latest_artifact_version(self.artifacts, draft.entry_id, draft.artifact_type)
                + 1,
            source_transcript_version: latest_transcript_version(
                self.transcripts,
                draft.entry_id,
            ),
            is_stale: false,
            ..draft
        }
    }

    /// The store after a transcript revision was appended. The version of
    /// `draft` is not read.
    pub open spec fn append_transcript(self, draft: TranscriptView) -> StoreView {
        self.with_transcript(self.numbered_transcript(draft))
    }

    /// The store after an artifact revision was appended. Of `draft`, the
    /// version, the source version and the stale mark are not read.
    pub open spec fn append_artifact(self, draft: ArtifactView) -> StoreView {
        self.with_artifact(self.numbered_artifact(draft))
    }

    /// The store after each of `drafts` was appended in turn.
    pub open spec fn append_transcripts(self, drafts: Seq<TranscriptView>) -> StoreView
        decreases drafts.len(),
    {
        if drafts.len() == 0 {
            self
        } else {
            self.append_transcripts(drafts.drop_last()).append_transcript(drafts.last())
        }
    }
}

/// Why a revision could not be appended.
#[derive(Clone, Copy, Debug, PartialEq, Eq, Structural)]
pub enum RevisionError {
    /// The entry has no transcript to derive an artifact from.
    NoTranscript,
    /// The next version would not fit in 64 bits.
    VersionsExhausted,
}

/// What became of an attempt to take a stored revision back into a store.
#[derive(Clone, Copy, Debug, PartialEq, Eq, Structural)]
pub enum Restored {
    Added,
    /// The version is below one.
    BadVersion,
    /// The entry, or the kind of the entry, has a revision of that version.
    Duplicate,
    /// The entry has no transcript revision of the artifact's source version.
    UnknownSource,
}

/// The latest transcript version of an entry after one more revision.
pub proof fn lemma_latest_transcript_push(ts: Seq<TranscriptView>, t: TranscriptView, entry: Seq<char>)
    ensures
        latest_transcript_version(ts.push(t), entry) == if t.entry_id == entry && t.version
            > latest_transcript_version(ts, entry) {
            t.version
        } else {
            latest_transcript_version(ts, entry)
        },
{
    assert(ts.push(t).drop_last() == ts);
}

/// The latest version of a kind of an entry after one more revision.
pub proof fn lemma_latest_artifact_push(
    arts: Seq<ArtifactView>,
    a: ArtifactView,
    entry: Seq<char>,
    kind: ArtifactType,
)
    ensures
        latest_artifact_version(arts.push(a), entry, kind) == if a.entry_id == entry
            && a.artifact_type == kind && a.version > latest_artifact_version(arts, entry, kind) {
            a.version
        } else {
            latest_artifact_version(arts, entry, kind)
        },
{
    assert(arts.push(a).drop_last() == arts);
}

/// The latest version is an upper bound of the entry's versions, and is the
/// version of one of its revisions unless it is zero.
pub proof fn lemma_latest_transcript_is_max(ts: Seq<TranscriptView>, entry: Seq<char>)
    ensures
        latest_transcript_version(ts, entry) >= 0,
        forall|i: int|
            0 <= i < ts.len() && (#[trigger] ts[i]).entry_id == entry ==> ts[i].version
                <= latest_transcript_version(ts, entry),
        latest_transcript_version(ts, entry) > 0 ==> has_transcript(
            ts,
            entry,
            latest_transcript_version(ts, entry),
        ),
    decreases ts.len(),
{
    if ts.len() > 0 {
        let rest = ts.drop_last();
        lemma_latest_transcript_is_max(rest, entry);
        assert forall|i: int| 0 <= i < ts.len() && (#[trigger] ts[i]).entry_id == entry implies ts[i].version
            <= latest_transcript_version(ts, entry) by {
            if i < rest.len() {
                assert(ts[i] == rest[i]);
            }
        }
        let m = latest_transcript_version(ts, entry);
        if m > 0 {
            if ts.last().entry_id == entry && ts.last().version == m {
                assert(ts[ts.len() - 1].entry_id == entry);
            } else {
                let k = choose|k: int|
                    0 <= k < rest.len() && (#[trigger] rest[k]).entry_id == entry
                        && rest[k].version == m;
                assert(ts[k] == rest[k]);
            }
        }
    }
}

/// The latest version is an upper bound of the versions of the entry's
/// revisions of the kind.
pub proof fn lemma_latest_artifact_is_max(
    arts: Seq<ArtifactView>,
    entry: Seq<char>,
    kind: ArtifactType,
)
    ensures
        latest_artifact_version(arts, entry, kind) >= 0,
        forall|i: int|
            0 <= i < arts.len() && (#[trigger] arts[i]).entry_id == entry && arts[i].artifact_type
                == kind ==> arts[i].version <= latest_artifact_version(arts, entry, kind),
    decreases arts.len(),
{
    if arts.len() > 0 {
        let rest = arts.drop_last();
        lemma_latest_artifact_is_max(rest, entry, kind);
        assert forall|i: int|
            0 <= i < arts.len() && (#[trigger] arts[i]).entry_id == entry && arts[i].artifact_type
                == kind implies arts[i].version <= latest_artifact_version(arts, entry, kind) by {
            if i < rest.len() {
                assert(arts[i] == rest[i]);
            }
        }
    }
}

/// Marking revisions stale changes neither their versions nor their kinds, so
/// the latest versions stay.
pub proof fn lemma_superseding_keeps_versions(
    arts: Seq<ArtifactView>,
    superseded: Seq<char>,
    entry: Seq<char>,
    kind: ArtifactType,
)
    ensures
        latest_artifact_version(
            arts.map_values(|a: ArtifactView| a.superseded_for(superseded)),
            entry,
            kind,
        ) == latest_artifact_version(arts, entry, kind),
    decreases arts.len(),
{
    let f = |a: ArtifactView| a.superseded_for(superseded);
    if arts.len() > 0 {
        lemma_superseding_keeps_versions(arts.drop_last(), superseded, entry, kind);
        assert(arts.map_values(f).drop_last() == arts.drop_last().map_values(f));
    }
}

/// A store stays well formed when a transcript revision with the next
/// version of its entry is added.
pub proof fn lemma_with_transcript_wf(s: StoreView, t: TranscriptView)
    requires
        s.wf(),
        t.version == latest_transcript_version(s.transcripts, t.entry_id) + 1,
    ensures
        s.with_transcript(t).wf(),
{
    let r = s.with_transcript(t);
    lemma_latest_transcript_is_max(s.transcripts, t.entry_id);
    assert forall|i: int, j: int|
        0 <= i < j < r.transcripts.len() && (#[trigger] r.transcripts[i]).entry_id == (
        #[trigger] r.transcripts[j]).entry_id implies r.transcripts[i].version
        != r.transcripts[j].version by {
        if j < s.transcripts.len() {
            assert(r.transcripts[i] == s.transcripts[i]);
            assert(r.transcripts[j] == s.transcripts[j]);
        } else {
            assert(r.transcripts[i] == s.transcripts[i]);
        }
    }
    assert forall|i: int| 0 <= i < r.artifacts.len() implies has_transcript(
        r.transcripts,
        (#[trigger] r.artifacts[i]).entry_id,
        r.artifacts[i].source_transcript_version,
    ) by {
        let a = s.artifacts[i];
        assert(has_transcript(s.transcripts, a.entry_id, a.source_transcript_version));
        let k = choose|k: int|
            0 <= k < s.transcripts.len() && (#[trigger] s.transcripts[k]).entry_id == a.entry_id
                && s.transcripts[k].version == a.source_transcript_version;
        assert(r.transcripts[k] == s.transcripts[k]);
    }
    assert forall|i: int, j: int|
        0 <= i < j < r.artifacts.len() && (#[trigger] r.artifacts[i]).entry_id == (
        #[trigger] r.artifacts[j]).entry_id && r.artifacts[i].artifact_type
            == r.artifacts[j].artifact_type implies r.artifacts[i].version
        != r.artifacts[j].version by {
        assert(s.artifacts[i].entry_id == s.artifacts[j].entry_id);
    }
    assert forall|i: int| 0 <= i < r.artifacts.len() implies (#[trigger] r.artifacts[i]).version
        >= 1 by {
        assert(s.artifacts[i].version >= 1);
    }
}

/// A store stays well formed when an artifact revision is added that has the
/// next version of its kind and was made from a transcript of its entry.
pub proof fn lemma_with_artifact_wf(s: StoreView, a: ArtifactView)
    requires
        s.wf(),
        a.version == latest_artifact_version(s.artifacts, a.entry_id, a.artifact_type) + 1,
        has_transcript(s.transcripts, a.entry_id, a.source_transcript_version),
    ensures
        s.with_artifact(a).wf(),
{
    let r = s.with_artifact(a);
    lemma_latest_artifact_is_max(s.artifacts, a.entry_id, a.artifact_type);
    assert forall|i: int, j: int|
        0 <= i < j < r.artifacts.len() && (#[trigger] r.artifacts[i]).entry_id == (
        #[trigger] r.artifacts[j]).entry_id && r.artifacts[i].artifact_type
            == r.artifacts[j].artifact_type implies r.artifacts[i].version
        != r.artifacts[j].version by {
        assert(r.artifacts[i] == s.artifacts[i]);
        if j < s.artifacts.len() {
            assert(r.artifacts[j] == s.artifacts[j]);
        }
    }
    assert forall|i: int| 0 <= i < r.artifacts.len() implies has_transcript(
        r.transcripts,
        (#[trigger] r.artifacts[i]).entry_id,
        r.artifacts[i].source_transcript_version,
    ) by {
        if i < s.artifacts.len() {
            assert(r.artifacts[i] == s.artifacts[i]);
        }
    }
    assert forall|i: int| 0 <= i < r.artifacts.len() implies (#[trigger] r.artifacts[i]).version
        >= 1 by {
        if i < s.artifacts.len() {
            assert(r.artifacts[i] == s.artifacts[i]);
        }
    }
}

/// A store stays well formed when it takes a transcript revision whose
/// version its entry does not have yet.
pub proof fn lemma_holding_transcript_wf(s: StoreView, t: TranscriptView)
    requires
        s.wf(),
        t.version >= 1,
        !has_transcript(s.transcripts, t.entry_id, t.version),
    ensures
        s.holding_transcript(t).wf(),
{
    let r = s.holding_transcript(t);
    assert forall|i: int, j: int|
        0 <= i < j < r.transcripts.len() && (#[trigger] r.transcripts[i]).entry_id == (
        #[trigger] r.transcripts[j]).entry_id implies r.transcripts[i].version
        != r.transcripts[j].version by {
        assert(r.transcripts[i] == s.transcripts[i]);
        if j < s.transcripts.len() {
            assert(r.transcripts[j] == s.transcripts[j]);
        }
    }
    assert forall|i: int| 0 <= i < r.artifacts.len() implies has_transcript(
        r.transcripts,
        (#[trigger] r.artifacts[i]).entry_id,
        r.artifacts[i].source_transcript_version,
    ) by {
        let a = s.artifacts[i];
        assert(has_transcript(s.transcripts, a.entry_id, a.source_transcript_version));
        let k = choose|k: int|
            0 <= k < s.transcripts.len() && (#[trigger] s.transcripts[k]).entry_id == a.entry_id
                && s.transcripts[k].version == a.source_transcript_version;
        assert(r.transcripts[k] == s.transcripts[k]);
    }
}

/// A store stays well formed when it takes an artifact revision whose version
/// its kind does not have yet and whose source its entry has.
pub proof fn lemma_holding_artifact_wf(s: StoreView, a: ArtifactView)
    requires
        s.wf(),
        a.version >= 1,
        !has_artifact(s.artifacts, a.entry_id, a.artifact_type, a.version),
        has_transcript(s.transcripts, a.entry_id, a.source_transcript_version),
    ensures
        s.with_artifact(a).wf(),
{
    let r = s.with_artifact(a);
    assert forall|i: int, j: int|
        0 <= i < j < r.artifacts.len() && (#[trigger] r.artifacts[i]).entry_id == (
        #[trigger] r.artifacts[j]).entry_id && r.artifacts[i].artifact_type
            == r.artifacts[j].artifact_type implies r.artifacts[i].version
        != r.artifacts[j].version by {
        assert(r.artifacts[i] == s.artifacts[i]);
        if j < s.artifacts.len() {
            assert(r.artifacts[j] == s.artifacts[j]);
        }
    }
    assert forall|i: int| 0 <= i < r.artifacts.len() implies has_transcript(
        r.transcripts,
        (#[trigger] r.artifacts[i]).entry_id,
        r.artifacts[i].source_transcript_version,
    ) by {
        if i < s.artifacts.len() {
            assert(r.artifacts[i] == s.artifacts[i]);
        }
    }
    assert forall|i: int| 0 <= i < r.artifacts.len() implies (#[trigger] r.artifacts[i]).version
        >= 1 by {
        if i < s.artifacts.len() {
            assert(r.artifacts[i] == s.artifacts[i]);
        }
    }
}

} // verus!
