//! What holds of every store, whatever is appended to it.

use vstd::prelude::*;
use crate::artifact::ArtifactType;
use crate::revisions::{
    has_any_transcript, has_artifact, has_transcript, latest_artifact_version,
    latest_transcript_version, lemma_latest_artifact_is_max, lemma_latest_artifact_push,
    lemma_latest_transcript_is_max, lemma_latest_transcript_push,
    lemma_superseding_keeps_versions, lemma_with_artifact_wf, lemma_with_transcript_wf,
    ArtifactView, StoreView, TranscriptView,
};

verus! {

/// An appended transcript revision gets the version after the latest of its
/// entry, and is the latest from then on.
pub proof fn lemma_transcript_append_counts_up(s: StoreView, draft: TranscriptView)
    ensures
        s.append_transcript(draft).transcripts.last().version == latest_transcript_version(
            s.transcripts,
            draft.entry_id,
        ) + 1,
        latest_transcript_version(s.append_transcript(draft).transcripts, draft.entry_id)
            == latest_transcript_version(s.transcripts, draft.entry_id) + 1,
{
    lemma_latest_transcript_push(s.transcripts, s.numbered_transcript(draft), draft.entry_id);
}

/// Appending a transcript revision for one entry leaves the latest version
/// of every other entry as it is.
pub proof fn lemma_transcript_versions_per_entry(
    s: StoreView,
    draft: TranscriptView,
    other: Seq<char>,
)
    requires
        other != draft.entry_id,
    ensures
        latest_transcript_version(s.append_transcript(draft).transcripts, other)
            == latest_transcript_version(s.transcripts, other),
{
    lemma_latest_transcript_push(s.transcripts, s.numbered_transcript(draft), other);
}

/// Repeated appending for one entry numbers the revisions without gaps or
/// repeats: the first gets the version after the entry's latest, and each
/// further one the version after that of the one before. For an entry without
/// revisions the versions are 1, 2, 3 and so on.
pub proof fn lemma_transcript_versions_have_no_gaps(
    s: StoreView,
    entry: Seq<char>,
    drafts: Seq<TranscriptView>,
)
    requires
        forall|i: int| 0 <= i < drafts.len() ==> (#[trigger] drafts[i]).entry_id == entry,
    ensures
        s.append_transcripts(drafts).transcripts.len() == s.transcripts.len() + drafts.len(),
        forall|k: int|
            0 <= k < s.transcripts.len() ==> (#[trigger] s.append_transcripts(
                drafts,
            ).transcripts[k]) == s.transcripts[k],
        forall|k: int|
            0 <= k < drafts.len() ==> (#[trigger] s.append_transcripts(
                drafts,
            ).transcripts[s.transcripts.len() + k]).version == latest_transcript_version(
                s.transcripts,
                entry,
            ) + k + 1,
        latest_transcript_version(s.append_transcripts(drafts).transcripts, entry)
            == latest_transcript_version(s.transcripts, entry) + drafts.len(),
    decreases drafts.len(),
{
    if drafts.len() > 0 {
        let earlier = drafts.drop_last();
        let mid = s.append_transcripts(earlier);
        lemma_transcript_versions_have_no_gaps(s, entry, earlier);
        lemma_transcript_append_counts_up(mid, drafts.last());
        let r = s.append_transcripts(drafts);
        assert(r == mid.append_transcript(drafts.last()));
        assert forall|k: int| 0 <= k < s.transcripts.len() implies (#[trigger] r.transcripts[k])
            == s.transcripts[k] by {
            assert(r.transcripts[k] == mid.transcripts[k]);
        }
        assert forall|k: int| 0 <= k < drafts.len() implies (#[trigger] r.transcripts[s.transcripts.len()
            + k]).version == latest_transcript_version(s.transcripts, entry) + k + 1 by {
            if k < earlier.len() {
                assert(r.transcripts[s.transcripts.len() + k] == mid.transcripts[s.transcripts.len()
                    + k]);
            } else {
                assert(r.transcripts[s.transcripts.len() + k] == r.transcripts.last());
            }
        }
    }
}

/// An appended artifact revision gets the version after the latest of its
/// entry and kind, and is the latest of them from then on.
pub proof fn lemma_artifact_append_counts_up(s: StoreView, draft: ArtifactView)
    ensures
        s.append_artifact(draft).artifacts.last().version == latest_artifact_version(
            s.artifacts,
            draft.entry_id,
            draft.artifact_type,
        ) + 1,
        latest_artifact_version(
            s.append_artifact(draft).artifacts,
            draft.entry_id,
            draft.artifact_type,
        ) == latest_artifact_version(s.artifacts, draft.entry_id, draft.artifact_type) + 1,
{
    lemma_latest_artifact_push(
        s.artifacts,
        s.numbered_artifact(draft),
        draft.entry_id,
        draft.artifact_type,
    );
}

/// Artifact versions are counted for each kind of each entry by itself:
/// appending a revision of one kind for one entry leaves the latest version of
/// every other kind, and of every other entry, as it is.
pub proof fn lemma_artifact_versions_per_kind(
    s: StoreView,
    draft: ArtifactView,
    entry: Seq<char>,
    kind: ArtifactType,
)
    requires
        entry != draft.entry_id || kind != draft.artifact_type,
    ensures
        latest_artifact_version(s.append_artifact(draft).artifacts, entry, kind)
            == latest_artifact_version(s.artifacts, entry, kind),
{
    lemma_latest_artifact_push(s.artifacts, s.numbered_artifact(draft), entry, kind);
}

/// Appending a transcript revision changes no artifact version, and
/// appending an artifact revision changes no transcript version.
pub proof fn lemma_versions_apart(
    s: StoreView,
    t: TranscriptView,
    a: ArtifactView,
    entry: Seq<char>,
    kind: ArtifactType,
)
    ensures
        latest_artifact_version(s.append_transcript(t).artifacts, entry, kind)
            == latest_artifact_version(s.artifacts, entry, kind),
        latest_transcript_version(s.append_artifact(a).transcripts, entry)
            == latest_transcript_version(s.transcripts, entry),
{
    lemma_superseding_keeps_versions(s.artifacts, t.entry_id, entry, kind);
}

/// Appending a transcript revision marks every artifact revision that its
/// entry had as stale and changes nothing else of it; the revisions of other
/// entries, transcripts and artifacts alike, stay as they are.
pub proof fn lemma_transcript_append_marks_stale(s: StoreView, draft: TranscriptView)
    ensures
        s.append_transcript(draft).artifacts.len() == s.artifacts.len(),
        forall|i: int|
            0 <= i < s.artifacts.len() && (#[trigger] s.artifacts[i]).entry_id == draft.entry_id
                ==> s.append_transcript(draft).artifacts[i] == (ArtifactView {
                is_stale: true,
                ..s.artifacts[i]
            }),
        forall|i: int|
            0 <= i < s.artifacts.len() && (#[trigger] s.artifacts[i]).entry_id != draft.entry_id
                ==> s.append_transcript(draft).artifacts[i] == s.artifacts[i],
        s.append_transcript(draft).transcripts.len() == s.transcripts.len() + 1,
        forall|i: int|
            0 <= i < s.transcripts.len() ==> s.append_transcript(draft).transcripts[i]
                == #[trigger] s.transcripts[i],
        s.append_transcript(draft).transcripts.last().entry_id == draft.entry_id,
{
}

/// An appended artifact revision is not stale, whatever the stale marks in
/// the store were, and was made from its entry's latest transcript version.
/// The revisions that were there stay as they are, stale marks included.
pub proof fn lemma_appended_artifact_is_fresh(s: StoreView, draft: ArtifactView)
    ensures
        !s.append_artifact(draft).artifacts.last().is_stale,
        s.append_artifact(draft).artifacts.last().source_transcript_version
            == latest_transcript_version(s.transcripts, draft.entry_id),
        s.append_artifact(draft).artifacts.len() == s.artifacts.len() + 1,
        forall|i: int|
            0 <= i < s.artifacts.len() ==> s.append_artifact(draft).artifacts[i]
                == #[trigger] s.artifacts[i],
        s.append_artifact(draft).transcripts == s.transcripts,
{
}

/// Staleness is never cleared: a revision that is stale stays stale through
/// every append.
pub proof fn lemma_stale_stays_stale(s: StoreView, t: TranscriptView, a: ArtifactView, i: int)
    requires
        0 <= i < s.artifacts.len(),
        s.artifacts[i].is_stale,
    ensures
        s.append_transcript(t).artifacts[i].is_stale,
        s.append_artifact(a).artifacts[i].is_stale,
{
}

/// An append to a store.
pub enum StoreOp {
    Transcript(TranscriptView),
    Artifact(ArtifactView),
}

/// The store without revisions.
pub open spec fn empty_store() -> StoreView {
    StoreView { transcripts: Seq::empty(), artifacts: Seq::empty() }
}

/// The store after `op`. An artifact for an entry without a transcript is
/// refused and leaves the store as it is.
pub open spec fn store_after(s: StoreView, op: StoreOp) -> StoreView {
    match op {
        StoreOp::Transcript(draft) => s.append_transcript(draft),
        StoreOp::Artifact(draft) => if has_any_transcript(s.transcripts, draft.entry_id) {
            s.append_artifact(draft)
        } else {
            s
        },
    }
}

/// The store that grows out of the empty store by `ops`, one after the other.
pub open spec fn grown_store(ops: Seq<StoreOp>) -> StoreView
    decreases ops.len(),
{
    if ops.len() == 0 {
        empty_store()
    } else {
        store_after(grown_store(ops.drop_last()), ops.last())
    }
}

/// Whether the versions have no gaps: every entry has a transcript revision
/// of each version from one to its latest, and every kind of every entry a
/// revision of each version from one to its latest.
pub open spec fn gapless(s: StoreView) -> bool {
    &&& forall|entry: Seq<char>, v: int|
        1 <= v <= latest_transcript_version(s.transcripts, entry) ==> #[trigger] has_transcript(
            s.transcripts,
            entry,
            v,
        )
    &&& forall|entry: Seq<char>, kind: ArtifactType, v: int|
        1 <= v <= latest_artifact_version(s.artifacts, entry, kind) ==> #[trigger] has_artifact(
            s.artifacts,
            entry,
            kind,
            v,
        )
}

/// Whether the stale marks say what they are for: an artifact revision is
/// stale exactly when its entry has a later transcript revision than the one
/// it was made from.
pub open spec fn stale_when_superseded(s: StoreView) -> bool {
    forall|i: int|
        0 <= i < s.artifacts.len() ==> ((#[trigger] s.artifacts[i]).is_stale
            <==> s.artifacts[i].source_transcript_version < latest_transcript_version(
            s.transcripts,
            s.artifacts[i].entry_id,
        ))
}

/// What holds of a store that has only ever been appended to.
pub open spec fn sound(s: StoreView) -> bool {
    s.wf() && gapless(s) && stale_when_superseded(s)
}

proof fn lemma_has_transcript_stays(ts: Seq<TranscriptView>, t: TranscriptView, entry: Seq<char>, v: int)
    requires
        has_transcript(ts, entry, v),
    ensures
        has_transcript(ts.push(t), entry, v),
{
    let k = choose|k: int|
        0 <= k < ts.len() && (#[trigger] ts[k]).entry_id == entry && ts[k].version == v;
    assert(ts.push(t)[k] == ts[k]);
}

proof fn lemma_has_artifact_stays(
    arts: Seq<ArtifactView>,
    a: ArtifactView,
    entry: Seq<char>,
    kind: ArtifactType,
    v: int,
)
    requires
        has_artifact(arts, entry, kind, v),
    ensures
        has_artifact(arts.push(a), entry, kind, v),
{
    let k = choose|k: int|
        0 <= k < arts.len() && (#[trigger] arts[k]).entry_id == entry && arts[k].artifact_type
            == kind && arts[k].version == v;
    assert(arts.push(a)[k] == arts[k]);
}

proof fn lemma_has_artifact_superseded(
    arts: Seq<ArtifactView>,
    superseded: Seq<char>,
    entry: Seq<char>,
    kind: ArtifactType,
    v: int,
)
    requires
        has_artifact(arts, entry, kind, v),
    ensures
        has_artifact(
            arts.map_values(|a: ArtifactView| a.superseded_for(superseded)),
            entry,
            kind,
            v,
        ),
{
    let k = choose|k: int|
        0 <= k < arts.len() && (#[trigger] arts[k]).entry_id == entry && arts[k].artifact_type
            == kind && arts[k].version == v;
    let marked = arts.map_values(|a: ArtifactView| a.superseded_for(superseded));
    assert(marked[k].entry_id == entry);
}

/// Appending a transcript revision keeps a sound store sound.
pub proof fn lemma_transcript_append_is_sound(s: StoreView, draft: TranscriptView)
    requires
        sound(s),
    ensures
        sound(s.append_transcript(draft)),
{
    let t = s.numbered_transcript(draft);
    let r = s.append_transcript(draft);
    let e = draft.entry_id;
    lemma_with_transcript_wf(s, t);
    assert forall|entry: Seq<char>, v: int|
        1 <= v <= latest_transcript_version(r.transcripts, entry) implies #[trigger] has_transcript(
        r.transcripts,
        entry,
        v,
    ) by {
        lemma_latest_transcript_push(s.transcripts, t, entry);
        if v <= latest_transcript_version(s.transcripts, entry) {
            assert(has_transcript(s.transcripts, entry, v));
            lemma_has_transcript_stays(s.transcripts, t, entry, v);
        } else {
            assert(r.transcripts[s.transcripts.len() as int] == t);
        }
    }
    assert forall|entry: Seq<char>, kind: ArtifactType, v: int|
        1 <= v <= latest_artifact_version(r.artifacts, entry, kind) implies #[trigger] has_artifact(
        r.artifacts,
        entry,
        kind,
        v,
    ) by {
        lemma_superseding_keeps_versions(s.artifacts, e, entry, kind);
        assert(has_artifact(s.artifacts, entry, kind, v));
        lemma_has_artifact_superseded(s.artifacts, e, entry, kind, v);
    }
    assert forall|i: int| 0 <= i < r.artifacts.len() implies ((#[trigger] r.artifacts[i]).is_stale
        <==> r.artifacts[i].source_transcript_version < latest_transcript_version(
        r.transcripts,
        r.artifacts[i].entry_id,
    )) by {
        let a = s.artifacts[i];
        lemma_latest_transcript_push(s.transcripts, t, a.entry_id);
        lemma_latest_transcript_is_max(s.transcripts, a.entry_id);
        assert(has_transcript(s.transcripts, a.entry_id, a.source_transcript_version));
        let k = choose|k: int|
            0 <= k < s.transcripts.len() && (#[trigger] s.transcripts[k]).entry_id == a.entry_id
                && s.transcripts[k].version == a.source_transcript_version;
        assert(s.transcripts[k].version <= latest_transcript_version(s.transcripts, a.entry_id));
    }
}

/// Appending an artifact revision for an entry that has a transcript keeps a
/// sound store sound.
pub proof fn lemma_artifact_append_is_sound(s: StoreView, draft: ArtifactView)
    requires
        sound(s),
        has_any_transcript(s.transcripts, draft.entry_id),
    ensures
        sound(s.append_artifact(draft)),
{
    let a = s.numbered_artifact(draft);
    let r = s.append_artifact(draft);
    lemma_latest_transcript_is_max(s.transcripts, draft.entry_id);
    let k = choose|k: int|
        0 <= k < s.transcripts.len() && (#[trigger] s.transcripts[k]).entry_id == draft.entry_id;
    assert(s.transcripts[k].version >= 1);
    lemma_with_artifact_wf(s, a);
    assert forall|entry: Seq<char>, kind: ArtifactType, v: int|
        1 <= v <= latest_artifact_version(r.artifacts, entry, kind) implies #[trigger] has_artifact(
        r.artifacts,
        entry,
        kind,
        v,
    ) by {
        lemma_latest_artifact_push(s.artifacts, a, entry, kind);
        if v <= latest_artifact_version(s.artifacts, entry, kind) {
            assert(has_artifact(s.artifacts, entry, kind, v));
            lemma_has_artifact_stays(s.artifacts, a, entry, kind, v);
        } else {
            assert(r.artifacts[s.artifacts.len() as int] == a);
        }
    }
    assert forall|i: int| 0 <= i < r.artifacts.len() implies ((#[trigger] r.artifacts[i]).is_stale
        <==> r.artifacts[i].source_transcript_version < latest_transcript_version(
        r.transcripts,
        r.artifacts[i].entry_id,
    )) by {
        if i < s.artifacts.len() {
            assert(r.artifacts[i] == s.artifacts[i]);
        }
    }
}

/// Every store that grows out of the empty store by appends is sound: it is
/// well formed, the transcript versions of every entry and the versions of
/// every kind of artifact of every entry run from one to the latest without
/// gaps or repeats, however the appends for different entries and kinds are
/// interleaved, and an artifact revision is stale exactly when its entry has
/// a later transcript revision than the one it was made from.
pub proof fn lemma_grown_store_is_sound(ops: Seq<StoreOp>)
    ensures
        sound(grown_store(ops)),
    decreases ops.len(),
{
    if ops.len() == 0 {
        let s = empty_store();
        assert forall|entry: Seq<char>, v: int|
            1 <= v <= latest_transcript_version(s.transcripts, entry) implies #[trigger] has_transcript(
            s.transcripts,
            entry,
            v,
        ) by {}
        assert forall|entry: Seq<char>, kind: ArtifactType, v: int|
            1 <= v <= latest_artifact_version(s.artifacts, entry, kind) implies #[trigger] has_artifact(
            s.artifacts,
            entry,
            kind,
            v,
        ) by {}
    } else {
        let before = grown_store(ops.drop_last());
        lemma_grown_store_is_sound(ops.drop_last());
        match ops.last() {
            StoreOp::Transcript(draft) => {
                lemma_transcript_append_is_sound(before, draft);
            },
            StoreOp::Artifact(draft) => {
                if has_any_transcript(before.transcripts, draft.entry_id) {
                    lemma_artifact_append_is_sound(before, draft);
                }
            },
        }
    }
}

} // verus!
