//! The sessions that are recording, by their identifiers.
//!
//! A session is made when a recording starts and taken out again when it
//! stops. What the caller needs to reach the recorder process goes through
//! as `handle`, which the registry does not look into.

use vstd::prelude::*;
use crate::identity::{is_identifier, new_identifier};
use crate::text::str_eq;

verus! {

/// A recording in progress.
#[derive(Debug)]
pub struct RecordingSession<H> {
    pub entry_id: String,
    /// The file that the recording writes.
    pub output_path: String,
    /// The audio that the entry had when the recording started, if any.
    pub existing_path: Option<String>,
    pub paused: bool,
    /// The caller's means to reach the recorder.
    pub handle: H,
}

/// A session with its texts as sequences.
pub struct SessionView<H> {
    pub entry_id: Seq<char>,
    pub output_path: Seq<char>,
    pub existing_path: Option<Seq<char>>,
    pub paused: bool,
    pub handle: H,
}

impl<H> View for RecordingSession<H> {
    type V = SessionView<H>;

    open spec fn view(&self) -> SessionView<H> {
        SessionView {
            entry_id: self.entry_id@,
            output_path: self.output_path@,
            existing_path: match self.existing_path {
                Some(p) => Some(p@),
                None => None,
            },
            paused: self.paused,
            handle: self.handle,
        }
    }
}

impl<H> SessionView<H> {
    /// The same session in the given pause state.
    pub open spec fn with_paused(self, paused: bool) -> SessionView<H> {
        SessionView { paused, ..self }
    }
}

struct Slot<H> {
    id: String,
    session: RecordingSession<H>,
}

/// The registry of the sessions that are recording. No two sessions share
/// an identifier.
pub struct SessionRegistry<H> {
    slots: Vec<Slot<H>>,
}

/// Whether one of `slots` has the identifier `id`.
spec fn holds<H>(slots: Seq<Slot<H>>, id: Seq<char>) -> bool {
    exists|i: int| 0 <= i < slots.len() && (#[trigger] slots[i]).id@ == id
}

/// The index of a slot that has the identifier `id`.
spec fn index_of<H>(slots: Seq<Slot<H>>, id: Seq<char>) -> int {
    choose|i: int| 0 <= i < slots.len() && (#[trigger] slots[i]).id@ == id
}

/// No two of `slots` share an identifier.
spec fn distinct<H>(slots: Seq<Slot<H>>) -> bool {
    forall|i: int, j: int|
        0 <= i < j < slots.len() ==> (#[trigger] slots[i]).id@ != (#[trigger] slots[j]).id@
}

/// The sessions of `slots` by their identifiers.
spec fn sessions_of<H>(slots: Seq<Slot<H>>) -> Map<Seq<char>, SessionView<H>> {
    Map::new(|id: Seq<char>| holds(slots, id), |id: Seq<char>| slots[index_of(slots, id)].session@)
}

proof fn lemma_index<H>(slots: Seq<Slot<H>>, i: int)
    requires
        distinct(slots),
        0 <= i < slots.len(),
    ensures
        holds(slots, slots[i].id@),
        index_of(slots, slots[i].id@) == i,
        sessions_of(slots).contains_key(slots[i].id@),
        sessions_of(slots)[slots[i].id@] == slots[i].session@,
{
    let id = slots[i].id@;
    let k = index_of(slots, id);
    assert(0 <= k < slots.len() && slots[k].id@ == id);
    if k < i {
        assert(slots[k].id@ != slots[i].id@);
    } else if i < k {
        assert(slots[i].id@ != slots[k].id@);
    }
}

/// Two lists of slots with the same identifiers at the same places hold the
/// same identifiers.
proof fn lemma_same_identifiers<H>(a: Seq<Slot<H>>, b: Seq<Slot<H>>)
    requires
        a.len() == b.len(),
        forall|k: int| 0 <= k < a.len() ==> (#[trigger] a[k]).id@ == b[k].id@,
    ensures
        distinct(a) == distinct(b),
        forall|key: Seq<char>| holds(a, key) == holds(b, key),
{
    assert forall|key: Seq<char>| holds(a, key) == holds(b, key) by {
        if holds(a, key) {
            let k = index_of(a, key);
            assert(b[k].id@ == key);
        }
        if holds(b, key) {
            let k = index_of(b, key);
            assert(a[k].id@ == b[k].id@);
        }
    }
    if distinct(a) {
        assert forall|i: int, j: int| 0 <= i < j < b.len() implies (#[trigger] b[i]).id@ != (
        #[trigger] b[j]).id@ by {
            assert(a[i].id@ == b[i].id@);
            assert(a[j].id@ == b[j].id@);
        }
    }
    if distinct(b) {
        assert forall|i: int, j: int| 0 <= i < j < a.len() implies (#[trigger] a[i]).id@ != (
        #[trigger] a[j]).id@ by {
            assert(a[i].id@ == b[i].id@);
            assert(a[j].id@ == b[j].id@);
        }
    }
}

impl<H> View for SessionRegistry<H> {
    type V = Map<Seq<char>, SessionView<H>>;

    closed spec fn view(&self) -> Map<Seq<char>, SessionView<H>> {
        sessions_of(self.slots@)
    }
}

/// The index of the slot with the identifier `id`.
fn position<H>(slots: &Vec<Slot<H>>, id: &str) -> (at: Option<usize>)
    requires
        distinct(slots@),
    ensures
        at is Some <==> sessions_of(slots@).contains_key(id@),
        at matches Some(i) ==> i < slots@.len() && slots@[i as int].id@ == id@ && sessions_of(
            slots@,
        )[id@] == slots@[i as int].session@,
{
    let mut i: usize = 0;
    while i < slots.len()
        invariant
            i <= slots.len(),
            distinct(slots@),
            forall|k: int| 0 <= k < i ==> (#[trigger] slots@[k]).id@ != id@,
        decreases slots.len() - i,
    {
        if str_eq(slots[i].id.as_str(), id) {
            proof {
                lemma_index(slots@, i as int);
            }
            return Some(i);
        }
        i += 1;
    }
    None
}

impl<H> SessionRegistry<H> {
    #[verifier::type_invariant]
    spec fn inv(self) -> bool {
        distinct(self.slots@)
    }

    /// A registry without sessions.
    pub fn new() -> (registry: SessionRegistry<H>)
        ensures
            registry@ == Map::<Seq<char>, SessionView<H>>::empty(),
    {
        let registry = SessionRegistry { slots: Vec::new() };
        assert(registry@ =~= Map::<Seq<char>, SessionView<H>>::empty());
        registry
    }

    /// Whether a session is registered under `id`.
    pub fn contains(&self, id: &str) -> (r: bool)
        ensures
            r == self@.contains_key(id@),
    {
        proof {
            use_type_invariant(self);
        }
        position(&self.slots, id).is_some()
    }

    /// The session that is registered under `id`.
    pub fn get(&self, id: &str) -> (session: Option<&RecordingSession<H>>)
        ensures
            session is Some <==> self@.contains_key(id@),
            session matches Some(s) ==> s@ == self@[id@],
    {
        proof {
            use_type_invariant(self);
        }
        match position(&self.slots, id) {
            Some(i) => Some(&self.slots[i].session),
            None => None,
        }
    }

    /// Registers `session` under `id`. A session that was registered under
    /// `id` before is replaced.
    pub fn insert(&mut self, id: String, session: RecordingSession<H>)
        ensures
            final(self)@ == old(self)@.insert(id@, session@),
    {
        proof {
            use_type_invariant(&*self);
        }
        let mut slots: Vec<Slot<H>> = Vec::new();
        std::mem::swap(&mut slots, &mut self.slots);
        let ghost before = slots@;
        let ghost added = session@;
        match position(&slots, id.as_str()) {
            Some(i) => {
                slots[i].session = session;
                proof {
                    lemma_same_identifiers(before, slots@);
                    assert forall|key: Seq<char>| #[trigger]
                        sessions_of(slots@).contains_key(key) implies sessions_of(slots@)[key]
                        == sessions_of(before).insert(id@, added)[key] by {
                        let k = index_of(slots@, key);
                        lemma_index(slots@, k);
                        lemma_index(before, k);
                    }
                    assert(sessions_of(slots@) =~= sessions_of(before).insert(id@, added));
                }
            },
            None => {
                slots.push(Slot { id, session });
                proof {
                    let n = before.len() as int;
                    assert forall|i: int, j: int| 0 <= i < j < slots@.len() implies (
                    #[trigger] slots@[i]).id@ != (#[trigger] slots@[j]).id@ by {
                        assert(slots@[i] == before[i]);
                        if j < n {
                            assert(slots@[j] == before[j]);
                        } else {
                            assert(!holds(before, id@));
                        }
                    }
                    assert forall|key: Seq<char>| holds(slots@, key) == (holds(before, key) || key
                        == id@) by {
                        if holds(slots@, key) {
                            let k = index_of(slots@, key);
                            if k < n {
                                assert(before[k].id@ == key);
                            }
                        }
                        if holds(before, key) {
                            let k = index_of(before, key);
                            assert(slots@[k].id@ == key);
                        }
                        if key == id@ {
                            assert(slots@[n].id@ == key);
                        }
                    }
                    assert forall|key: Seq<char>| #[trigger]
                        sessions_of(slots@).contains_key(key) implies sessions_of(slots@)[key]
                        == sessions_of(before).insert(id@, added)[key] by {
                        let k = index_of(slots@, key);
                        lemma_index(slots@, k);
                        if k < n {
                            assert(slots@[k] == before[k]);
                            lemma_index(before, k);
                        }
                    }
                    assert(sessions_of(slots@) =~= sessions_of(before).insert(id@, added));
                }
            },
        }
        self.slots = slots;
    }

    /// Registers `session` under a fresh identifier, which is returned.
    pub fn register(&mut self, session: RecordingSession<H>) -> (id: String)
        ensures
            is_identifier(id@),
            final(self)@ == old(self)@.insert(id@, session@),
    {
        let id = new_identifier();
        let key = id.clone();
        self.insert(key, session);
        id
    }

    /// Takes the session that is registered under `id` out of the registry.
    /// A second removal under the same identifier finds nothing.
    pub fn remove(&mut self, id: &str) -> (session: Option<RecordingSession<H>>)
        ensures
            session is Some <==> old(self)@.contains_key(id@),
            session matches Some(s) ==> s@ == old(self)@[id@],
            final(self)@ == old(self)@.remove(id@),
            !final(self)@.contains_key(id@),
    {
        proof {
            use_type_invariant(&*self);
        }
        let mut slots: Vec<Slot<H>> = Vec::new();
        std::mem::swap(&mut slots, &mut self.slots);
        let ghost before = slots@;
        let found = match position(&slots, id) {
            Some(i) => {
                let slot = slots.remove(i);
                proof {
                    let n = before.len() as int;
                    assert forall|a: int, b: int| 0 <= a < b < slots@.len() implies (
                    #[trigger] slots@[a]).id@ != (#[trigger] slots@[b]).id@ by {
                        let a0 = if a < i { a } else { a + 1 };
                        let b0 = if b < i { b } else { b + 1 };
                        assert(slots@[a] == before[a0]);
                        assert(slots@[b] == before[b0]);
                    }
                    assert forall|key: Seq<char>| holds(slots@, key) == (holds(before, key) && key
                        != id@) by {
                        if holds(slots@, key) {
                            let k = index_of(slots@, key);
                            let k0 = if k < i { k } else { k + 1 };
                            assert(slots@[k] == before[k0]);
                            assert(before[k0].id@ == key);
                            if k0 < i {
                                assert(before[k0].id@ != before[i as int].id@);
                            } else {
                                assert(before[i as int].id@ != before[k0].id@);
                            }
                        }
                        if holds(before, key) && key != id@ {
                            let k0 = index_of(before, key);
                            let k = if k0 < i { k0 } else { k0 - 1 };
                            assert(slots@[k] == before[k0]);
                        }
                    }
                    assert forall|key: Seq<char>| #[trigger]
                        sessions_of(slots@).contains_key(key) implies sessions_of(slots@)[key]
                        == sessions_of(before).remove(id@)[key] by {
                        let k = index_of(slots@, key);
                        let k0 = if k < i { k } else { k + 1 };
                        lemma_index(slots@, k);
                        assert(slots@[k] == before[k0]);
                        lemma_index(before, k0);
                    }
                    assert(sessions_of(slots@) =~= sessions_of(before).remove(id@));
                }
                Some(slot.session)
            },
            None => {
                assert(sessions_of(slots@) =~= sessions_of(before).remove(id@));
                None
            },
        };
        self.slots = slots;
        found
    }

    /// Records whether the session under `id` is paused. Says whether there
    /// is such a session.
    pub fn set_paused(&mut self, id: &str, paused: bool) -> (found: bool)
        ensures
            found == old(self)@.contains_key(id@),
            final(self)@ == if found {
                old(self)@.insert(id@, old(self)@[id@].with_paused(paused))
            } else {
                old(self)@
            },
    {
        proof {
            use_type_invariant(&*self);
        }
        let mut slots: Vec<Slot<H>> = Vec::new();
        std::mem::swap(&mut slots, &mut self.slots);
        let ghost before = slots@;
        let found = match position(&slots, id) {
            Some(i) => {
                slots[i].session.paused = paused;
                proof {
                    let changed = sessions_of(before)[id@].with_paused(paused);
                    lemma_same_identifiers(before, slots@);
                    assert forall|key: Seq<char>| #[trigger]
                        sessions_of(slots@).contains_key(key) implies sessions_of(slots@)[key]
                        == sessions_of(before).insert(id@, changed)[key] by {
                        let k = index_of(slots@, key);
                        lemma_index(slots@, k);
                        lemma_index(before, k);
                    }
                    assert(sessions_of(slots@) =~= sessions_of(before).insert(id@, changed));
                }
                true
            },
            None => false,
        };
        self.slots = slots;
        found
    }
}

} // verus!
