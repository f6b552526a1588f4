use ai_transcribe_local::artifact::ArtifactType;
use ai_transcribe_local::revisions::{ArtifactRevision, Restored, RevisionError, TranscriptRevision};
use ai_transcribe_local::store::RevisionStore;

fn transcript(entry: &str, version: i64) -> TranscriptRevision {
    TranscriptRevision {
        id: format!("t-{entry}-{version}"),
        entry_id: entry.to_string(),
        version,
        text: "text".to_string(),
        language: "en".to_string(),
        is_manual_edit: false,
        created_at: "2024-01-01T00:00:00+00:00".to_string(),
    }
}

fn artifact(entry: &str, kind: ArtifactType, version: i64, source: i64) -> ArtifactRevision {
    ArtifactRevision {
        id: format!("a-{entry}-{version}"),
        entry_id: entry.to_string(),
        artifact_type: kind,
        version,
        text: "text".to_string(),
        source_transcript_version: source,
        is_stale: false,
        is_manual_edit: false,
        created_at: "2024-01-01T00:00:00+00:00".to_string(),
    }
}

#[test]
fn transcript_versions_count_up_from_one() {
    let mut store = RevisionStore::new();
    for expected in 1..=5 {
        assert_eq!(store.get_next_transcript_version("e1"), Some(expected));
        assert_eq!(
            store.append_transcript("e1", "hello", "en", false),
            Ok(expected)
        );
    }
    let versions: Vec<i64> = store.transcripts().iter().map(|t| t.version).collect();
    assert_eq!(versions, vec![1, 2, 3, 4, 5]);
}

#[test]
fn transcript_versions_are_counted_per_entry() {
    let mut store = RevisionStore::new();
    assert_eq!(store.append_transcript("a", "x", "en", false), Ok(1));
    assert_eq!(store.append_transcript("b", "x", "en", false), Ok(1));
    assert_eq!(store.append_transcript("a", "x", "en", true), Ok(2));
    assert_eq!(store.append_transcript("b", "x", "en", false), Ok(2));
    assert_eq!(store.append_transcript("a", "x", "en", false), Ok(3));
    assert_eq!(store.latest_transcript_version("a"), 3);
    assert_eq!(store.latest_transcript_version("b"), 2);
    assert_eq!(store.latest_transcript_version("c"), 0);
}

#[test]
fn artifact_versions_are_independent_per_type() {
    let mut store = RevisionStore::new();
    store.append_transcript("e", "hello", "en", false).unwrap();
    assert_eq!(store.append_artifact("e", ArtifactType::Summary, "s1", false), Ok(1));
    assert_eq!(store.append_artifact("e", ArtifactType::Summary, "s2", false), Ok(2));
    assert_eq!(store.latest_artifact_version("e", ArtifactType::Analysis), 0);
    assert_eq!(store.append_artifact("e", ArtifactType::Analysis, "a1", false), Ok(1));
    assert_eq!(store.append_artifact("e", ArtifactType::Summary, "s3", true), Ok(3));
    assert_eq!(store.append_artifact("e", ArtifactType::CritiqueCs, "c1", false), Ok(1));
    assert_eq!(store.latest_artifact_version("e", ArtifactType::Summary), 3);
    assert_eq!(store.latest_artifact_version("e", ArtifactType::Analysis), 1);
    assert_eq!(store.latest_artifact_version("e", ArtifactType::CritiqueSales), 0);
    assert_eq!(store.get_next_artifact_version("e", ArtifactType::Summary), Some(4));
}

#[test]
fn artifact_versions_are_independent_per_entry() {
    let mut store = RevisionStore::new();
    store.append_transcript("a", "hello", "en", false).unwrap();
    store.append_transcript("b", "hello", "en", false).unwrap();
    assert_eq!(store.append_artifact("a", ArtifactType::Summary, "x", false), Ok(1));
    assert_eq!(store.append_artifact("a", ArtifactType::Summary, "x", false), Ok(2));
    assert_eq!(store.append_artifact("b", ArtifactType::Summary, "x", false), Ok(1));
}

#[test]
fn appending_a_transcript_marks_the_entrys_artifacts_stale_and_no_others() {
    let mut store = RevisionStore::new();
    store.append_transcript("a", "hello", "en", false).unwrap();
    store.append_transcript("b", "hello", "en", false).unwrap();
    store.append_artifact("a", ArtifactType::Summary, "x", false).unwrap();
    store.append_artifact("a", ArtifactType::Analysis, "x", false).unwrap();
    store.append_artifact("b", ArtifactType::Summary, "y", false).unwrap();
    assert!(store.artifacts().iter().all(|a| !a.is_stale));

    store.append_transcript("a", "hello again", "en", true).unwrap();

    for a in store.artifacts() {
        assert_eq!(a.is_stale, a.entry_id == "a");
    }
    let b = store.latest_artifact_by_type("b", ArtifactType::Summary).unwrap();
    assert_eq!(b.text, "y");
    assert_eq!(b.version, 1);
    assert_eq!(b.source_transcript_version, 1);
    let a = store.latest_artifact_by_type("a", ArtifactType::Summary).unwrap();
    assert_eq!(a.text, "x");
    assert_eq!(a.version, 1);
    assert_eq!(a.source_transcript_version, 1);
    assert_eq!(store.latest_transcript("b").unwrap().text, "hello");
}

#[test]
fn a_fresh_artifact_is_never_stale() {
    let mut store = RevisionStore::new();
    store.append_transcript("e", "one", "en", false).unwrap();
    store.append_artifact("e", ArtifactType::Summary, "old", false).unwrap();
    store.append_transcript("e", "two", "en", false).unwrap();
    assert!(store.artifacts()[0].is_stale);
    store.append_artifact("e", ArtifactType::Summary, "new", false).unwrap();
    let latest = store.latest_artifact_by_type("e", ArtifactType::Summary).unwrap();
    assert_eq!(latest.text, "new");
    assert_eq!(latest.version, 2);
    assert!(!latest.is_stale);
    assert!(store.artifacts()[0].is_stale);
}

#[test]
fn stale_marks_are_never_cleared() {
    let mut store = RevisionStore::new();
    store.append_transcript("e", "one", "en", false).unwrap();
    store.append_artifact("e", ArtifactType::Summary, "old", false).unwrap();
    store.append_transcript("e", "one", "en", true).unwrap();
    store.append_artifact("e", ArtifactType::Analysis, "a", false).unwrap();
    store.append_transcript("other", "x", "en", false).unwrap();
    assert!(store.artifacts()[0].is_stale);
    assert!(!store.artifacts()[1].is_stale);
}

#[test]
fn artifact_records_the_latest_transcript_version() {
    let mut store = RevisionStore::new();
    assert_eq!(store.append_transcript("e", "hello", "en", false), Ok(1));
    assert_eq!(store.append_transcript("e", "hello world", "en", true), Ok(2));
    assert_eq!(store.append_artifact("e", ArtifactType::Summary, "sum", false), Ok(1));
    let a = store.latest_artifact_by_type("e", ArtifactType::Summary).unwrap();
    assert_eq!(a.source_transcript_version, 2);
    assert_eq!(a.artifact_type, ArtifactType::Summary);
    assert!(!a.is_manual_edit);
    let t = store.latest_transcript("e").unwrap();
    assert_eq!(t.version, 2);
    assert_eq!(t.text, "hello world");
    assert!(t.is_manual_edit);
}

#[test]
fn artifact_without_transcript_is_refused() {
    let mut store = RevisionStore::new();
    store.append_transcript("other", "hello", "en", false).unwrap();
    assert_eq!(
        store.append_artifact("e", ArtifactType::Summary, "x", false),
        Err(RevisionError::NoTranscript)
    );
    assert!(store.artifacts().is_empty());
    assert_eq!(store.transcripts().len(), 1);
}

#[test]
fn latest_of_nothing_is_nothing() {
    let store = RevisionStore::new();
    assert!(store.latest_transcript("e").is_none());
    assert!(store.latest_artifact_by_type("e", ArtifactType::Summary).is_none());
    assert_eq!(store.get_next_transcript_version("e"), Some(1));
    assert_eq!(store.get_next_artifact_version("e", ArtifactType::Summary), Some(1));
}

#[test]
fn appended_revisions_carry_what_was_given() {
    let mut store = RevisionStore::new();
    store
        .append_transcript_with("id-1".to_string(), "now".to_string(), "e", "hello", "de", true)
        .unwrap();
    let t = &store.transcripts()[0];
    assert_eq!(
        (t.id.as_str(), t.entry_id.as_str(), t.version, t.text.as_str(), t.language.as_str()),
        ("id-1", "e", 1, "hello", "de")
    );
    assert!(t.is_manual_edit);
    assert_eq!(t.created_at, "now");
    store
        .append_artifact_with(
            "id-2".to_string(),
            "later".to_string(),
            "e",
            ArtifactType::CritiqueSales,
            "crit",
            true,
        )
        .unwrap();
    let a = &store.artifacts()[0];
    assert_eq!(
        (a.id.as_str(), a.entry_id.as_str(), a.version, a.text.as_str(), a.created_at.as_str()),
        ("id-2", "e", 1, "crit", "later")
    );
    assert_eq!(a.artifact_type, ArtifactType::CritiqueSales);
    assert_eq!(a.source_transcript_version, 1);
    assert!(a.is_manual_edit);
    assert!(!a.is_stale);
}

#[test]
fn fresh_identifiers_are_hyphenated_random_identifiers() {
    let mut store = RevisionStore::new();
    store.append_transcript("e", "a", "en", false).unwrap();
    store.append_transcript("e", "b", "en", false).unwrap();
    store.append_artifact("e", ArtifactType::Summary, "s", false).unwrap();
    let mut ids: Vec<&str> = store.transcripts().iter().map(|t| t.id.as_str()).collect();
    ids.push(store.artifacts()[0].id.as_str());
    for id in &ids {
        assert_eq!(id.len(), 36);
        for (i, c) in id.chars().enumerate() {
            if i == 8 || i == 13 || i == 18 || i == 23 {
                assert_eq!(c, '-');
            } else {
                assert!(c.is_ascii_digit() || ('a'..='f').contains(&c));
            }
        }
        assert_eq!(id.as_bytes()[14], b'4');
        assert!(b"89ab".contains(&id.as_bytes()[19]));
    }
    assert_ne!(ids[0], ids[1]);
    assert_ne!(ids[1], ids[2]);
    assert!(!store.transcripts()[0].created_at.is_empty());
    assert_ne!(store.transcripts()[0].created_at, "e");
}

#[test]
fn versions_exhausted_at_the_largest_version() {
    let mut store = RevisionStore::new();
    assert_eq!(store.restore_transcript(transcript("e", i64::MAX)), Restored::Added);
    assert_eq!(store.get_next_transcript_version("e"), None);
    assert_eq!(
        store.append_transcript("e", "x", "en", false),
        Err(RevisionError::VersionsExhausted)
    );
    assert_eq!(store.transcripts().len(), 1);
    assert_eq!(
        store.restore_artifact(artifact("e", ArtifactType::Summary, i64::MAX, i64::MAX)),
        Restored::Added
    );
    assert_eq!(
        store.append_artifact("e", ArtifactType::Summary, "x", false),
        Err(RevisionError::VersionsExhausted)
    );
    assert_eq!(store.append_artifact("e", ArtifactType::Analysis, "x", false), Ok(1));
}

#[test]
fn restoring_keeps_stored_revisions_as_they_were() {
    let mut store = RevisionStore::new();
    assert_eq!(store.restore_transcript(transcript("e", 2)), Restored::Added);
    assert_eq!(store.restore_transcript(transcript("e", 1)), Restored::Added);
    let mut stale = artifact("e", ArtifactType::Summary, 1, 1);
    stale.is_stale = true;
    assert_eq!(store.restore_artifact(stale), Restored::Added);
    assert_eq!(store.restore_transcript(transcript("e", 4)), Restored::Added);
    assert!(store.artifacts()[0].is_stale);
    assert_eq!(store.latest_transcript("e").unwrap().version, 4);
    assert_eq!(store.append_transcript("e", "x", "en", false), Ok(5));
    assert_eq!(store.append_artifact("e", ArtifactType::Summary, "x", false), Ok(2));
    assert_eq!(
        store.latest_artifact_by_type("e", ArtifactType::Summary).unwrap().source_transcript_version,
        5
    );
}

#[test]
fn restoring_refuses_what_breaks_the_invariant() {
    let mut store = RevisionStore::new();
    assert_eq!(store.restore_transcript(transcript("e", 0)), Restored::BadVersion);
    assert_eq!(store.restore_transcript(transcript("e", -3)), Restored::BadVersion);
    assert_eq!(store.restore_transcript(transcript("e", 1)), Restored::Added);
    assert_eq!(store.restore_transcript(transcript("e", 1)), Restored::Duplicate);
    assert_eq!(store.restore_transcript(transcript("f", 1)), Restored::Added);
    assert_eq!(
        store.restore_artifact(artifact("e", ArtifactType::Summary, 0, 1)),
        Restored::BadVersion
    );
    assert_eq!(
        store.restore_artifact(artifact("e", ArtifactType::Summary, 1, 2)),
        Restored::UnknownSource
    );
    assert_eq!(
        store.restore_artifact(artifact("g", ArtifactType::Summary, 1, 1)),
        Restored::UnknownSource
    );
    assert_eq!(
        store.restore_artifact(artifact("e", ArtifactType::Summary, 1, 1)),
        Restored::Added
    );
    assert_eq!(
        store.restore_artifact(artifact("e", ArtifactType::Summary, 1, 1)),
        Restored::Duplicate
    );
    assert_eq!(
        store.restore_artifact(artifact("e", ArtifactType::Analysis, 1, 1)),
        Restored::Added
    );
    assert_eq!(store.transcripts().len(), 2);
    assert_eq!(store.artifacts().len(), 2);
    assert!(store.holds_transcript("e", 1));
    assert!(!store.holds_transcript("e", 2));
    assert!(store.holds_artifact("e", ArtifactType::Analysis, 1));
    assert!(!store.holds_artifact("f", ArtifactType::Analysis, 1));
}

#[test]
fn interleaved_appends_leave_no_gaps_and_exact_stale_marks() {
    let mut store = RevisionStore::new();
    let entries = ["a", "b", "c"];
    let kinds = [ArtifactType::Summary, ArtifactType::Analysis, ArtifactType::CritiqueCs];
    let mut seed: u32 = 12345;
    for _ in 0..400 {
        seed = seed.wrapping_mul(1_103_515_245).wrapping_add(12_345);
        let entry = entries[(seed >> 16) as usize % 3];
        let kind = kinds[(seed >> 20) as usize % 3];
        if (seed >> 24) % 3 == 0 {
            store.append_transcript(entry, "t", "en", seed % 2 == 0).unwrap();
        } else {
            let had_transcript = store.latest_transcript(entry).is_some();
            let r = store.append_artifact(entry, kind, "a", seed % 2 == 0);
            assert_eq!(r.is_ok(), had_transcript);
        }
        for entry in entries {
            let mut versions: Vec<i64> = store
                .transcripts()
                .iter()
                .filter(|t| t.entry_id == entry)
                .map(|t| t.version)
                .collect();
            versions.sort();
            let expected: Vec<i64> = (1..=versions.len() as i64).collect();
            assert_eq!(versions, expected);
            for kind in kinds {
                let mut versions: Vec<i64> = store
                    .artifacts()
                    .iter()
                    .filter(|a| a.entry_id == entry && a.artifact_type == kind)
                    .map(|a| a.version)
                    .collect();
                versions.sort();
                let expected: Vec<i64> = (1..=versions.len() as i64).collect();
                assert_eq!(versions, expected);
            }
        }
        for a in store.artifacts() {
            let latest = store.latest_transcript_version(&a.entry_id);
            assert_eq!(a.is_stale, a.source_transcript_version < latest);
        }
    }
    assert!(store.transcripts().len() > 50);
    assert!(store.artifacts().len() > 50);
}
