use ai_transcribe_local::registry::{RecordingSession, SessionRegistry};

fn session(entry: &str, existing: Option<&str>, handle: u32) -> RecordingSession<u32> {
    RecordingSession {
        entry_id: entry.to_string(),
        output_path: format!("/data/{entry}/audio/original.wav"),
        existing_path: existing.map(|p| p.to_string()),
        paused: false,
        handle,
    }
}

#[test]
fn registered_session_is_found_under_its_identifier() {
    let mut registry: SessionRegistry<u32> = SessionRegistry::new();
    let id = registry.register(session("e1", None, 7));
    assert_eq!(id.len(), 36);
    assert!(registry.contains(&id));
    let found = registry.get(&id).unwrap();
    assert_eq!(found.entry_id, "e1");
    assert_eq!(found.handle, 7);
    assert!(!found.paused);
    assert!(found.existing_path.is_none());
    assert!(!registry.contains("other"));
    assert!(registry.get("other").is_none());
    assert!(!registry.contains(""));
}

#[test]
fn identifiers_of_sessions_differ() {
    let mut registry: SessionRegistry<u32> = SessionRegistry::new();
    let a = registry.register(session("e1", None, 1));
    let b = registry.register(session("e1", None, 2));
    let c = registry.register(session("e2", Some("/p"), 3));
    assert_ne!(a, b);
    assert_ne!(b, c);
    assert_ne!(a, c);
    assert_eq!(registry.get(&a).unwrap().handle, 1);
    assert_eq!(registry.get(&b).unwrap().handle, 2);
    assert_eq!(registry.get(&c).unwrap().handle, 3);
    assert_eq!(registry.get(&c).unwrap().existing_path.as_deref(), Some("/p"));
}

#[test]
fn second_stop_finds_nothing() {
    let mut registry: SessionRegistry<u32> = SessionRegistry::new();
    let id = registry.register(session("e1", None, 7));
    let other = registry.register(session("e2", None, 8));
    let removed = registry.remove(&id).unwrap();
    assert_eq!(removed.entry_id, "e1");
    assert_eq!(removed.handle, 7);
    assert!(registry.remove(&id).is_none());
    assert!(!registry.contains(&id));
    assert!(registry.contains(&other));
    assert_eq!(registry.get(&other).unwrap().handle, 8);
    assert!(registry.remove("never there").is_none());
}

#[test]
fn removal_in_the_middle_keeps_the_others() {
    let mut registry: SessionRegistry<u32> = SessionRegistry::new();
    registry.insert("a".to_string(), session("ea", None, 1));
    registry.insert("b".to_string(), session("eb", None, 2));
    registry.insert("c".to_string(), session("ec", None, 3));
    assert_eq!(registry.remove("b").unwrap().handle, 2);
    assert_eq!(registry.get("a").unwrap().handle, 1);
    assert_eq!(registry.get("c").unwrap().handle, 3);
    assert!(registry.get("b").is_none());
    assert_eq!(registry.remove("a").unwrap().handle, 1);
    assert_eq!(registry.remove("c").unwrap().handle, 3);
    assert!(registry.remove("c").is_none());
}

#[test]
fn insertion_under_a_known_identifier_replaces() {
    let mut registry: SessionRegistry<u32> = SessionRegistry::new();
    registry.insert("a".to_string(), session("e1", None, 1));
    registry.insert("b".to_string(), session("e2", None, 2));
    registry.insert("a".to_string(), session("e3", None, 3));
    assert_eq!(registry.get("a").unwrap().entry_id, "e3");
    assert_eq!(registry.get("a").unwrap().handle, 3);
    assert_eq!(registry.get("b").unwrap().handle, 2);
    assert_eq!(registry.remove("a").unwrap().handle, 3);
    assert!(registry.remove("a").is_none());
}

#[test]
fn pause_state_is_recorded_for_known_sessions_only() {
    let mut registry: SessionRegistry<u32> = SessionRegistry::new();
    registry.insert("a".to_string(), session("e1", None, 1));
    registry.insert("b".to_string(), session("e2", None, 2));
    assert!(registry.set_paused("a", true));
    assert!(registry.get("a").unwrap().paused);
    assert!(!registry.get("b").unwrap().paused);
    assert_eq!(registry.get("a").unwrap().handle, 1);
    assert_eq!(registry.get("a").unwrap().entry_id, "e1");
    assert!(registry.set_paused("a", true));
    assert!(registry.get("a").unwrap().paused);
    assert!(registry.set_paused("a", false));
    assert!(!registry.get("a").unwrap().paused);
    assert!(!registry.set_paused("zzz", true));
    assert!(!registry.contains("zzz"));
}
