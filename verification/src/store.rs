//! The store that holds the revisions and appends to them.

use vstd::prelude::*;
use crate::artifact::ArtifactType;
use crate::identity::{is_identifier, new_identifier, now_timestamp};
use crate::revisions::{
    has_any_transcript, has_artifact, has_transcript, lemma_holding_artifact_wf,
    lemma_holding_transcript_wf, latest_artifact_version, latest_transcript_version,
    lemma_latest_artifact_push, lemma_latest_transcript_is_max, lemma_latest_transcript_push,
    lemma_with_artifact_wf, lemma_with_transcript_wf, ArtifactRevision, ArtifactView, Restored,
    RevisionError, StoreView, TranscriptRevision, TranscriptView,
};
use crate::text::str_eq;

verus! {

/// The transcript and artifact revisions of a set of entries. A store is
/// well formed at all times, in the sense of `StoreView::wf`.
pub struct RevisionStore {
    transcripts: Vec<TranscriptRevision>,
    artifacts: Vec<ArtifactRevision>,
}

/// The revisions held in the two lists.
pub open spec fn view_of(
    transcripts: Seq<TranscriptRevision>,
    artifacts: Seq<ArtifactRevision>,
) -> StoreView {
    StoreView {
        transcripts: transcripts.map_values(|t: TranscriptRevision| t@),
        artifacts: artifacts.map_values(|a: ArtifactRevision| a@),
    }
}

impl View for RevisionStore {
    type V = StoreView;

    closed spec fn view(&self) -> StoreView {
        view_of(self.transcripts@, self.artifacts@)
    }
}

impl RevisionStore {
    #[verifier::type_invariant]
    spec fn inv(self) -> bool {
        view_of(self.transcripts@, self.artifacts@).wf()
    }

    /// Whether the store meets its invariant, which it always does.
    pub open spec fn wf(&self) -> bool {
        self@.wf()
    }

    /// A store without revisions.
    pub fn new() -> (store: RevisionStore)
        ensures
            store.wf(),
            store@.transcripts.len() == 0,
            store@.artifacts.len() == 0,
    {
        RevisionStore { transcripts: Vec::new(), artifacts: Vec::new() }
    }

    /// Takes the two lists out of the store, which is left empty.
    fn take(&mut self) -> (lists: (Vec<TranscriptRevision>, Vec<ArtifactRevision>))
        ensures
            view_of(lists.0@, lists.1@) == old(self)@,
            view_of(lists.0@, lists.1@).wf(),
    {
        proof {
            use_type_invariant(&*self);
        }
        let mut taken = RevisionStore { transcripts: Vec::new(), artifacts: Vec::new() };
        std::mem::swap(self, &mut taken);
        let RevisionStore { transcripts, artifacts } = taken;
        (transcripts, artifacts)
    }

    /// The transcript revisions, in the order in which they were added.
    pub fn transcripts(&self) -> (out: &Vec<TranscriptRevision>)
        ensures
            out@.map_values(|t: TranscriptRevision| t@) == self@.transcripts,
    {
        &self.transcripts
    }

    /// The artifact revisions, in the order in which they were added.
    pub fn artifacts(&self) -> (out: &Vec<ArtifactRevision>)
        ensures
            out@.map_values(|a: ArtifactRevision| a@) == self@.artifacts,
    {
        &self.artifacts
    }

    /// The highest transcript version of the entry, zero if it has none.
    pub fn latest_transcript_version(&self, entry_id: &str) -> (version: i64)
        ensures
            version == latest_transcript_version(self@.transcripts, entry_id@),
    {
        let mut best: i64 = 0;
        let mut i: usize = 0;
        assert(self@.transcripts.take(0) == Seq::<TranscriptView>::empty());
        while i < self.transcripts.len()
            invariant
                i <= self.transcripts.len(),
                best == latest_transcript_version(self@.transcripts.take(i as int), entry_id@),
            decreases self.transcripts.len() - i,
        {
            let t = &self.transcripts[i];
            proof {
                let ts = self@.transcripts;
                assert(ts.take(i + 1) == ts.take(i as int).push(ts[i as int]));
                lemma_latest_transcript_push(ts.take(i as int), ts[i as int], entry_id@);
            }
            if t.version > best && str_eq(t.entry_id.as_str(), entry_id) {
                best = t.version;
            }
            i += 1;
        }
        assert(self@.transcripts.take(i as int) == self@.transcripts);
        best
    }

    /// The highest version of the entry's artifact of the kind, zero if it
    /// has none.
    pub fn latest_artifact_version(&self, entry_id: &str, kind: ArtifactType) -> (version: i64)
        ensures
            version == latest_artifact_version(self@.artifacts, entry_id@, kind),
    {
        let mut best: i64 = 0;
        let mut i: usize = 0;
        assert(self@.artifacts.take(0) == Seq::<ArtifactView>::empty());
        while i < self.artifacts.len()
            invariant
                i <= self.artifacts.len(),
                best == latest_artifact_version(self@.artifacts.take(i as int), entry_id@, kind),
            decreases self.artifacts.len() - i,
        {
            let a = &self.artifacts[i];
            proof {
                let arts = self@.artifacts;
                assert(arts.take(i + 1) == arts.take(i as int).push(arts[i as int]));
                lemma_latest_artifact_push(arts.take(i as int), arts[i as int], entry_id@, kind);
            }
            if a.version > best && a.artifact_type == kind && str_eq(a.entry_id.as_str(), entry_id) {
                best = a.version;
            }
            i += 1;
        }
        assert(self@.artifacts.take(i as int) == self@.artifacts);
        best
    }

    /// The version that the entry's next transcript revision gets, unless it
    /// would not fit.
    pub fn get_next_transcript_version(&self, entry_id: &str) -> (next: Option<i64>)
        ensures
            next is Some <==> latest_transcript_version(self@.transcripts, entry_id@) < i64::MAX,
            next matches Some(v) ==> v == latest_transcript_version(self@.transcripts, entry_id@)
                + 1,
    {
        let latest = self.latest_transcript_version(entry_id);
        if latest < i64::MAX {
            Some(latest + 1)
        } else {
            None
        }
    }

    /// The version that the next revision of the entry's artifact of the kind
    /// gets, unless it would not fit.
    pub fn get_next_artifact_version(&self, entry_id: &str, kind: ArtifactType) -> (next: Option<
        i64,
    >)
        ensures
            next is Some <==> latest_artifact_version(self@.artifacts, entry_id@, kind)
                < i64::MAX,
            next matches Some(v) ==> v == latest_artifact_version(self@.artifacts, entry_id@, kind)
                + 1,
    {
        let latest = self.latest_artifact_version(entry_id, kind);
        if latest < i64::MAX {
            Some(latest + 1)
        } else {
            None
        }
    }

    /// The entry's transcript revision with the highest version. That an
    /// entry has none is no error.
    pub fn latest_transcript(&self, entry_id: &str) -> (latest: Option<&TranscriptRevision>)
        ensures
            latest is Some <==> has_any_transcript(self@.transcripts, entry_id@),
            latest matches Some(t) ==> {
                &&& self@.transcripts.contains(t@)
                &&& t@.entry_id == entry_id@
                &&& t@.version == latest_transcript_version(self@.transcripts, entry_id@)
            },
    {
        proof {
            use_type_invariant(self);
        }
        let ghost ts = self@.transcripts;
        let mut best: Option<usize> = None;
        let mut i: usize = 0;
        assert(ts.take(0) == Seq::<TranscriptView>::empty());
        while i < self.transcripts.len()
            invariant
                i <= self.transcripts.len(),
                ts == self@.transcripts,
                self.wf(),
                best is None ==> forall|k: int| 0 <= k < i ==> (#[trigger] ts[k]).entry_id
                    != entry_id@,
                best matches Some(b) ==> b < i && ts[b as int].entry_id == entry_id@
                    && ts[b as int].version == latest_transcript_version(
                    ts.take(i as int),
                    entry_id@,
                ),
            decreases self.transcripts.len() - i,
        {
            let t = &self.transcripts[i];
            proof {
                assert(ts.take(i + 1) == ts.take(i as int).push(ts[i as int]));
                lemma_latest_transcript_push(ts.take(i as int), ts[i as int], entry_id@);
                lemma_latest_transcript_is_max(ts.take(i as int), entry_id@);
                assert(ts[i as int].version >= 1);
                if best is None {
                    let m = latest_transcript_version(ts.take(i as int), entry_id@);
                    if m > 0 {
                        let k = choose|k: int|
                            0 <= k < ts.take(i as int).len() && (#[trigger] ts.take(
                                i as int,
                            )[k]).entry_id == entry_id@ && ts.take(i as int)[k].version == m;
                        assert(ts[k].entry_id == entry_id@);
                    }
                }
            }
            if str_eq(t.entry_id.as_str(), entry_id) {
                let better = match best {
                    Some(b) => t.version > self.transcripts[b].version,
                    None => true,
                };
                if better {
                    best = Some(i);
                }
            }
            i += 1;
        }
        assert(ts.take(i as int) == ts);
        match best {
            Some(b) => {
                assert(ts[b as int] == self.transcripts@[b as int]@);
                Some(&self.transcripts[b])
            },
            None => None,
        }
    }

    /// The revision with the highest version of the entry's artifact of the
    /// kind. That there is none is no error.
    pub fn latest_artifact_by_type(&self, entry_id: &str, kind: ArtifactType) -> (latest: Option<
        &ArtifactRevision,
    >)
        ensures
            latest is Some <==> crate::revisions::has_any_artifact(
                self@.artifacts,
                entry_id@,
                kind,
            ),
            latest matches Some(a) ==> {
                &&& self@.artifacts.contains(a@)
                &&& a@.entry_id == entry_id@
                &&& a@.artifact_type == kind
                &&& a@.version == latest_artifact_version(self@.artifacts, entry_id@, kind)
            },
    {
        proof {
            use_type_invariant(self);
        }
        let ghost arts = self@.artifacts;
        let mut best: Option<usize> = None;
        let mut i: usize = 0;
        assert(arts.take(0) == Seq::<ArtifactView>::empty());
        while i < self.artifacts.len()
            invariant
                i <= self.artifacts.len(),
                arts == self@.artifacts,
                self.wf(),
                best is None ==> latest_artifact_version(arts.take(i as int), entry_id@, kind) == 0
                    && forall|k: int|
                    0 <= k < i ==> !((#[trigger] arts[k]).entry_id == entry_id@
                        && arts[k].artifact_type == kind),
                best matches Some(b) ==> b < i && arts[b as int].entry_id == entry_id@
                    && arts[b as int].artifact_type == kind && arts[b as int].version
                    == latest_artifact_version(arts.take(i as int), entry_id@, kind),
            decreases self.artifacts.len() - i,
        {
            let a = &self.artifacts[i];
            proof {
                assert(arts.take(i + 1) == arts.take(i as int).push(arts[i as int]));
                lemma_latest_artifact_push(arts.take(i as int), arts[i as int], entry_id@, kind);
                assert(arts[i as int].version >= 1);
            }
            if a.artifact_type == kind && str_eq(a.entry_id.as_str(), entry_id) {
                let better = match best {
                    Some(b) => a.version > self.artifacts[b].version,
                    None => true,
                };
                if better {
                    best = Some(i);
                }
            }
            i += 1;
        }
        assert(arts.take(i as int) == arts);
        match best {
            Some(b) => {
                assert(arts[b as int] == self.artifacts@[b as int]@);
                Some(&self.artifacts[b])
            },
            None => None,
        }
    }
}

impl RevisionStore {
    /// Appends a transcript revision with the given identifier and time of
    /// creation. It gets the version after the latest of its entry, and
    /// every artifact revision of the entry is marked stale with it.
    pub fn append_transcript_with(
        &mut self,
        id: String,
        created_at: String,
        entry_id: &str,
        text: &str,
        language: &str,
        is_manual_edit: bool,
    ) -> (r: Result<i64, RevisionError>)
        ensures
            final(self).wf(),
            r is Ok <==> latest_transcript_version(old(self)@.transcripts, entry_id@) < i64::MAX,
            r matches Ok(version) ==> {
                &&& version == latest_transcript_version(old(self)@.transcripts, entry_id@) + 1
                &&& final(self)@ == old(self)@.append_transcript(
                    TranscriptView {
                        id: id@,
                        entry_id: entry_id@,
                        version: 0,
                        text: text@,
                        language: language@,
                        is_manual_edit,
                        created_at: created_at@,
                    },
                )
            },
            r matches Err(e) ==> e == RevisionError::VersionsExhausted && final(self)@ == old(
                self,
            )@,
    {
        proof {
            use_type_invariant(&*self);
        }
        let version = match self.get_next_transcript_version(entry_id) {
            Some(v) => v,
            None => {
                return Err(RevisionError::VersionsExhausted);
            },
        };
        let revision = TranscriptRevision {
            id,
            entry_id: entry_id.to_owned(),
            version,
            text: text.to_owned(),
            language: language.to_owned(),
            is_manual_edit,
            created_at,
        };
        let ghost before = self@;
        let ghost added = revision@;
        let (mut transcripts, mut artifacts) = self.take();
        let mut i: usize = 0;
        while i < artifacts.len()
            invariant
                i <= artifacts.len(),
                artifacts.len() == before.artifacts.len(),
                forall|k: int|
                    0 <= k < i ==> (#[trigger] artifacts@[k])@ == before.artifacts[k].superseded_for(
                        entry_id@,
                    ),
                forall|k: int|
                    i <= k < artifacts.len() ==> (#[trigger] artifacts@[k])@ == before.artifacts[k],
            decreases artifacts.len() - i,
        {
            if str_eq(artifacts[i].entry_id.as_str(), entry_id) {
                artifacts[i].is_stale = true;
            }
            i += 1;
        }
        transcripts.push(revision);
        proof {
            let expected = before.with_transcript(added);
            let now = view_of(transcripts@, artifacts@);
            assert(now.transcripts =~= expected.transcripts);
            assert forall|k: int| 0 <= k < expected.artifacts.len() implies now.artifacts[k]
                == expected.artifacts[k] by {
                assert(artifacts@[k]@ == before.artifacts[k].superseded_for(entry_id@));
            }
            assert(now.artifacts =~= expected.artifacts);
            assert(added == before.numbered_transcript(
                TranscriptView {
                    id: id@,
                    entry_id: entry_id@,
                    version: 0,
                    text: text@,
                    language: language@,
                    is_manual_edit,
                    created_at: created_at@,
                },
            ));
            lemma_with_transcript_wf(before, added);
        }
        *self = RevisionStore { transcripts, artifacts };
        Ok(version)
    }

    /// Appends an artifact revision with the given identifier and time of
    /// creation. It gets the version after the latest of its entry and kind,
    /// records the entry's latest transcript version as its source, and is not
    /// stale. An entry without a transcript gets no artifact.
    pub fn append_artifact_with(
        &mut self,
        id: String,
        created_at: String,
        entry_id: &str,
        kind: ArtifactType,
        text: &str,
        is_manual_edit: bool,
    ) -> (r: Result<i64, RevisionError>)
        ensures
            final(self).wf(),
            r is Ok <==> has_any_transcript(old(self)@.transcripts, entry_id@)
                && latest_artifact_version(old(self)@.artifacts, entry_id@, kind) < i64::MAX,
            r matches Ok(version) ==> {
                &&& version == latest_artifact_version(old(self)@.artifacts, entry_id@, kind) + 1
                &&& final(self)@ == old(self)@.append_artifact(
                    ArtifactView {
                        id: id@,
                        entry_id: entry_id@,
                        artifact_type: kind,
                        version: 0,
                        text: text@,
                        source_transcript_version: 0,
                        is_stale: false,
                        is_manual_edit,
                        created_at: created_at@,
                    },
                )
            },
            r matches Err(e) ==> final(self)@ == old(self)@ && (e == RevisionError::NoTranscript
                <==> !has_any_transcript(old(self)@.transcripts, entry_id@)),
    {
        proof {
            use_type_invariant(&*self);
        }
        let source = match self.latest_transcript(entry_id) {
            Some(t) => t.version,
            None => {
                return Err(RevisionError::NoTranscript);
            },
        };
        let version = match self.get_next_artifact_version(entry_id, kind) {
            Some(v) => v,
            None => {
                return Err(RevisionError::VersionsExhausted);
            },
        };
        let revision = ArtifactRevision {
            id,
            entry_id: entry_id.to_owned(),
            artifact_type: kind,
            version,
            text: text.to_owned(),
            source_transcript_version: source,
            is_stale: false,
            is_manual_edit,
            created_at,
        };
        let ghost before = self@;
        let ghost added = revision@;
        let (transcripts, mut artifacts) = self.take();
        artifacts.push(revision);
        proof {
            let expected = before.with_artifact(added);
            let now = view_of(transcripts@, artifacts@);
            assert(now.transcripts =~= expected.transcripts);
            assert(now.artifacts =~= expected.artifacts);
            lemma_latest_transcript_is_max(before.transcripts, entry_id@);
            let k = choose|k: int|
                0 <= k < before.transcripts.len() && (#[trigger] before.transcripts[k]).entry_id
                    == entry_id@;
            assert(before.transcripts[k].version >= 1);
            lemma_with_artifact_wf(before, added);
        }
        *self = RevisionStore { transcripts, artifacts };
        Ok(version)
    }

    /// Appends a transcript revision under a fresh identifier, created now.
    /// Which identifier and time it gets is not determined; all else is as
    /// `append_transcript_with` states it.
    pub fn append_transcript(
        &mut self,
        entry_id: &str,
        text: &str,
        language: &str,
        is_manual_edit: bool,
    ) -> (r: Result<i64, RevisionError>)
        ensures
            final(self).wf(),
            r is Ok <==> latest_transcript_version(old(self)@.transcripts, entry_id@) < i64::MAX,
            r matches Ok(version) ==> {
                &&& version == latest_transcript_version(old(self)@.transcripts, entry_id@) + 1
                &&& final(self)@.transcripts.len() == old(self)@.transcripts.len() + 1
                &&& is_identifier(final(self)@.transcripts.last().id)
                &&& final(self)@ == old(self)@.append_transcript(
                    TranscriptView {
                        id: final(self)@.transcripts.last().id,
                        entry_id: entry_id@,
                        version: 0,
                        text: text@,
                        language: language@,
                        is_manual_edit,
                        created_at: final(self)@.transcripts.last().created_at,
                    },
                )
            },
            r matches Err(e) ==> e == RevisionError::VersionsExhausted && final(self)@ == old(
                self,
            )@,
    {
        let id = new_identifier();
        let created_at = now_timestamp();
        self.append_transcript_with(id, created_at, entry_id, text, language, is_manual_edit)
    }

    /// Appends an artifact revision under a fresh identifier, created now.
    /// Which identifier and time it gets is not determined; all else is as
    /// `append_artifact_with` states it.
    pub fn append_artifact(
        &mut self,
        entry_id: &str,
        kind: ArtifactType,
        text: &str,
        is_manual_edit: bool,
    ) -> (r: Result<i64, RevisionError>)
        ensures
            final(self).wf(),
            r is Ok <==> has_any_transcript(old(self)@.transcripts, entry_id@)
                && latest_artifact_version(old(self)@.artifacts, entry_id@, kind) < i64::MAX,
            r matches Ok(version) ==> {
                &&& version == latest_artifact_version(old(self)@.artifacts, entry_id@, kind) + 1
                &&& final(self)@.artifacts.len() == old(self)@.artifacts.len() + 1
                &&& is_identifier(final(self)@.artifacts.last().id)
                &&& final(self)@ == old(self)@.append_artifact(
                    ArtifactView {
                        id: final(self)@.artifacts.last().id,
                        entry_id: entry_id@,
                        artifact_type: kind,
                        version: 0,
                        text: text@,
                        source_transcript_version: 0,
                        is_stale: false,
                        is_manual_edit,
                        created_at: final(self)@.artifacts.last().created_at,
                    },
                )
            },
            r matches Err(e) ==> final(self)@ == old(self)@ && (e == RevisionError::NoTranscript
                <==> !has_any_transcript(old(self)@.transcripts, entry_id@)),
    {
        let id = new_identifier();
        let created_at = now_timestamp();
        self.append_artifact_with(id, created_at, entry_id, kind, text, is_manual_edit)
    }
}

impl RevisionStore {
    /// Whether the entry has a transcript revision of that version.
    pub fn holds_transcript(&self, entry_id: &str, version: i64) -> (r: bool)
        ensures
            r == has_transcript(self@.transcripts, entry_id@, version as int),
    {
        let mut i: usize = 0;
        while i < self.transcripts.len()
            invariant
                i <= self.transcripts.len(),
                forall|k: int|
                    0 <= k < i ==> !((#[trigger] self@.transcripts[k]).entry_id == entry_id@
                        && self@.transcripts[k].version == version),
            decreases self.transcripts.len() - i,
        {
            let t = &self.transcripts[i];
            if t.version == version && str_eq(t.entry_id.as_str(), entry_id) {
                assert(self@.transcripts[i as int].entry_id == entry_id@);
                return true;
            }
            i += 1;
        }
        false
    }

    /// Whether the entry has a revision of that kind and version.
    pub fn holds_artifact(&self, entry_id: &str, kind: ArtifactType, version: i64) -> (r: bool)
        ensures
            r == has_artifact(self@.artifacts, entry_id@, kind, version as int),
    {
        let mut i: usize = 0;
        while i < self.artifacts.len()
            invariant
                i <= self.artifacts.len(),
                forall|k: int|
                    0 <= k < i ==> !((#[trigger] self@.artifacts[k]).entry_id == entry_id@
                        && self@.artifacts[k].artifact_type == kind && self@.artifacts[k].version
                        == version),
            decreases self.artifacts.len() - i,
        {
            let a = &self.artifacts[i];
            if a.version == version && a.artifact_type == kind && str_eq(
                a.entry_id.as_str(),
                entry_id,
            ) {
                assert(self@.artifacts[i as int].entry_id == entry_id@);
                return true;
            }
            i += 1;
        }
        false
    }

    /// Takes a transcript revision as it was stored, version and all. It is
    /// added unless the version is below one or the entry has it already; no
    /// artifact is marked stale.
    pub fn restore_transcript(&mut self, revision: TranscriptRevision) -> (r: Restored)
        ensures
            final(self).wf(),
            r == if revision@.version < 1 {
                Restored::BadVersion
            } else if has_transcript(
                old(self)@.transcripts,
                revision@.entry_id,
                revision@.version,
            ) {
                Restored::Duplicate
            } else {
                Restored::Added
            },
            final(self)@ == if r == Restored::Added {
                old(self)@.holding_transcript(revision@)
            } else {
                old(self)@
            },
    {
        proof {
            use_type_invariant(&*self);
        }
        if revision.version < 1 {
            return Restored::BadVersion;
        }
        if self.holds_transcript(revision.entry_id.as_str(), revision.version) {
            return Restored::Duplicate;
        }
        let ghost before = self@;
        let ghost added = revision@;
        let (mut transcripts, artifacts) = self.take();
        transcripts.push(revision);
        proof {
            let expected = before.holding_transcript(added);
            let now = view_of(transcripts@, artifacts@);
            assert(now.transcripts =~= expected.transcripts);
            assert(now.artifacts =~= expected.artifacts);
            lemma_holding_transcript_wf(before, added);
        }
        *self = RevisionStore { transcripts, artifacts };
        Restored::Added
    }

    /// Takes an artifact revision as it was stored, version, source and stale
    /// mark and all. It is added unless the version is below one, the kind
    /// has that version already, or the entry has no transcript revision of
    /// the source version.
    pub fn restore_artifact(&mut self, revision: ArtifactRevision) -> (r: Restored)
        ensures
            final(self).wf(),
            r == if revision@.version < 1 {
                Restored::BadVersion
            } else if has_artifact(
                old(self)@.artifacts,
                revision@.entry_id,
                revision@.artifact_type,
                revision@.version,
            ) {
                Restored::Duplicate
            } else if !has_transcript(
                old(self)@.transcripts,
                revision@.entry_id,
                revision@.source_transcript_version,
            ) {
                Restored::UnknownSource
            } else {
                Restored::Added
            },
            final(self)@ == if r == Restored::Added {
                old(self)@.with_artifact(revision@)
            } else {
                old(self)@
            },
    {
        proof {
            use_type_invariant(&*self);
        }
        if revision.version < 1 {
            return Restored::BadVersion;
        }
        if self.holds_artifact(
            revision.entry_id.as_str(),
            revision.artifact_type,
            revision.version,
        ) {
            return Restored::Duplicate;
        }
        if !self.holds_transcript(revision.entry_id.as_str(), revision.source_transcript_version) {
            return Restored::UnknownSource;
        }
        let ghost before = self@;
        let ghost added = revision@;
        let (transcripts, mut artifacts) = self.take();
        artifacts.push(revision);
        proof {
            let expected = before.with_artifact(added);
            let now = view_of(transcripts@, artifacts@);
            assert(now.transcripts =~= expected.transcripts);
            assert(now.artifacts =~= expected.artifacts);
            lemma_holding_artifact_wf(before, added);
        }
        *self = RevisionStore { transcripts, artifacts };
        Restored::Added
    }
}

} // verus!
