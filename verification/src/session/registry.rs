//! The registry of running sessions, keyed by session id.
use vstd::prelude::*;

use crate::text::str_equal;

verus! {

/// Ids of the entries, in order.
pub open spec fn entry_ids<H>(entries: Seq<(String, H)>) -> Seq<Seq<char>> {
    entries.map_values(|e: (String, H)| e.0@)
}

/// The registry holds each id once at most.
pub open spec fn ids_unique<H>(entries: Seq<(String, H)>) -> bool {
    forall|i: int, j: int|
        0 <= i < entries.len() && 0 <= j < entries.len() && i != j ==> #[trigger] entries[i].0@ != #[trigger] entries[j].0@
}

/// Some entry has id `k`.
pub open spec fn has_entry<H>(entries: Seq<(String, H)>, k: Seq<char>) -> bool {
    exists|i: int| 0 <= i < entries.len() && #[trigger] entries[i].0@ == k
}

/// The handle stored under `k` (meaningful when `has_entry(entries, k)`).
pub open spec fn entry_handle<H>(entries: Seq<(String, H)>, k: Seq<char>) -> H {
    entries[choose|i: int| 0 <= i < entries.len() && #[trigger] entries[i].0@ == k].1
}

/// The map from session ids to handles that the entries describe.
pub open spec fn entries_map<H>(entries: Seq<(String, H)>) -> Map<Seq<char>, H> {
    Map::new(|k: Seq<char>| has_entry(entries, k), |k: Seq<char>| entry_handle(entries, k))
}

/// The entry at index `i` is the one the map finds under its id.
pub proof fn lemma_entry_handle<H>(entries: Seq<(String, H)>, i: int)
    requires
        ids_unique(entries),
        0 <= i < entries.len(),
    ensures
        has_entry(entries, entries[i].0@),
        entry_handle(entries, entries[i].0@) == entries[i].1,
        entries_map(entries).dom().contains(entries[i].0@),
        entries_map(entries)[entries[i].0@] == entries[i].1,
{
    let k = entries[i].0@;
    assert(has_entry(entries, k));
    let j = choose|j: int| 0 <= j < entries.len() && #[trigger] entries[j].0@ == k;
    assert(j == i);
}

/// Appending an entry under a new id keeps the ids unique and adds that id
/// to the map.
pub proof fn lemma_push_entry<H>(entries: Seq<(String, H)>, entry: (String, H))
    requires
        ids_unique(entries),
        !has_entry(entries, entry.0@),
    ensures
        ids_unique(entries.push(entry)),
        entries_map(entries.push(entry)) == entries_map(entries).insert(entry.0@, entry.1),
{
    let e = entries.push(entry);
    let key = entry.0@;
    assert forall|i: int, j: int| 0 <= i < e.len() && 0 <= j < e.len() && i != j implies #[trigger] e[i].0@
        != #[trigger] e[j].0@ by {
        if i < entries.len() && j < entries.len() {
            assert(entries[i] == e[i] && entries[j] == e[j]);
        } else if i < entries.len() {
            assert(entries[i] == e[i]);
        } else {
            assert(entries[j] == e[j]);
        }
    }
    let target = entries_map(entries).insert(key, entry.1);
    assert forall|k: Seq<char>| #[trigger] entries_map(e).dom().contains(k) <==> target.dom().contains(k) by {
        if has_entry(e, k) {
            let i = choose|i: int| 0 <= i < e.len() && #[trigger] e[i].0@ == k;
            if i < entries.len() {
                assert(entries[i] == e[i]);
            }
        }
        if has_entry(entries, k) {
            let i = choose|i: int| 0 <= i < entries.len() && #[trigger] entries[i].0@ == k;
            assert(entries[i] == e[i]);
        }
        if k == key {
            assert(e[entries.len() as int].0@ == k);
        }
    }
    assert forall|k: Seq<char>| #[trigger] entries_map(e).dom().contains(k) implies entries_map(e)[k] == target[k] by {
        let i = choose|i: int| 0 <= i < e.len() && #[trigger] e[i].0@ == k;
        lemma_entry_handle(e, i);
        if i < entries.len() {
            assert(entries[i] == e[i]);
            lemma_entry_handle(entries, i);
        }
    }
    assert(entries_map(e) =~= target);
}

/// Removing the entry at `i` keeps the ids unique and removes its id from
/// the map.
pub proof fn lemma_remove_entry<H>(entries: Seq<(String, H)>, i: int)
    requires
        ids_unique(entries),
        0 <= i < entries.len(),
    ensures
        ids_unique(entries.remove(i)),
        entries_map(entries.remove(i)) == entries_map(entries).remove(entries[i].0@),
{
    let e = entries.remove(i);
    let key = entries[i].0@;
    assert forall|j: int| 0 <= j < e.len() implies #[trigger] e[j] == entries[if j < i { j } else { j + 1 }] by {}
    assert forall|a: int, b: int| 0 <= a < e.len() && 0 <= b < e.len() && a != b implies #[trigger] e[a].0@
        != #[trigger] e[b].0@ by {
        let a2 = if a < i { a } else { a + 1 };
        let b2 = if b < i { b } else { b + 1 };
        assert(e[a] == entries[a2]);
        assert(e[b] == entries[b2]);
    }
    let target = entries_map(entries).remove(key);
    assert forall|k: Seq<char>| #[trigger] entries_map(e).dom().contains(k) <==> target.dom().contains(k) by {
        if has_entry(e, k) {
            let j = choose|j: int| 0 <= j < e.len() && #[trigger] e[j].0@ == k;
            let j2 = if j < i { j } else { j + 1 };
            assert(e[j] == entries[j2]);
            assert(j2 != i);
        }
        if target.dom().contains(k) {
            let j = choose|j: int| 0 <= j < entries.len() && #[trigger] entries[j].0@ == k;
            assert(j != i);
            let j1 = if j < i { j } else { j - 1 };
            assert(e[j1] == entries[j]);
        }
    }
    assert forall|k: Seq<char>| #[trigger] entries_map(e).dom().contains(k) implies entries_map(e)[k] == target[k] by {
        let j = choose|j: int| 0 <= j < e.len() && #[trigger] e[j].0@ == k;
        let j2 = if j < i { j } else { j + 1 };
        assert(e[j] == entries[j2]);
        lemma_entry_handle(e, j);
        lemma_entry_handle(entries, j2);
    }
    assert(entries_map(e) =~= target);
}

/// Every session of the map has its handle among the entries' handles, and
/// there is one handle per session.
proof fn lemma_handles_cover<H>(e: Seq<(String, H)>)
    requires
        ids_unique(e),
    ensures
        e.map_values(|x: (String, H)| x.1).len() == entries_map(e).dom().len(),
        entries_map(e).dom().finite(),
        forall|k: Seq<char>| #[trigger] entries_map(e).dom().contains(k)
            ==> e.map_values(|x: (String, H)| x.1).contains(entries_map(e)[k]),
{
    let hs = e.map_values(|x: (String, H)| x.1);
    let ids = entry_ids(e);
    assert forall|k: Seq<char>| #[trigger] entries_map(e).dom().contains(k) implies hs.contains(entries_map(e)[k]) by {
        let i = choose|i: int| 0 <= i < e.len() && #[trigger] e[i].0@ == k;
        lemma_entry_handle(e, i);
        assert(hs[i] == e[i].1);
    }
    assert(ids.no_duplicates()) by {
        assert forall|i: int, j: int| 0 <= i < ids.len() && 0 <= j < ids.len() && i != j implies ids[i] != ids[j] by {
            assert(ids[i] == e[i].0@);
            assert(ids[j] == e[j].0@);
        }
    }
    assert(entries_map(e).dom() =~= ids.to_set()) by {
        assert forall|k: Seq<char>| entries_map(e).dom().contains(k) <==> ids.to_set().contains(k) by {
            if entries_map(e).dom().contains(k) {
                let i = choose|i: int| 0 <= i < e.len() && #[trigger] e[i].0@ == k;
                assert(ids[i] == k);
            }
            if ids.to_set().contains(k) {
                let i = choose|i: int| 0 <= i < ids.len() && ids[i] == k;
                assert(e[i].0@ == k);
            }
        }
    }
    ids.unique_seq_to_set();
}

/// Running sessions and a handle for each, e.g. the session task, its
/// state and its cancellation token.
pub struct SessionManager<H> {
    sessions: Vec<(String, H)>,
}

impl<H> SessionManager<H> {
    #[verifier::type_invariant]
    spec fn ids_are_unique(&self) -> bool {
        ids_unique(self.sessions@)
    }

    /// The registered sessions.
    pub closed spec fn sessions(&self) -> Map<Seq<char>, H> {
        entries_map(self.sessions@)
    }

    /// An empty registry.
    pub fn new() -> (m: Self)
        ensures
            m.sessions() == Map::<Seq<char>, H>::empty(),
    {
        let m = SessionManager { sessions: Vec::new() };
        assert(m.sessions() =~= Map::<Seq<char>, H>::empty());
        m
    }

    fn position(&self, session_id: &str) -> (r: Option<usize>)
        ensures
            match r {
                Some(i) => i < self.sessions@.len() && self.sessions@[i as int].0@ == session_id@,
                None => !has_entry(self.sessions@, session_id@),
            },
    {
        let mut i: usize = 0;
        while i < self.sessions.len()
            invariant
                i <= self.sessions@.len(),
                forall|j: int| 0 <= j < i ==> #[trigger] self.sessions@[j].0@ != session_id@,
            decreases self.sessions@.len() - i,
        {
            if str_equal(self.sessions[i].0.as_str(), session_id) {
                return Some(i);
            }
            i = i + 1;
        }
        None
    }

    /// The handle of a session, if it is registered.
    pub fn get_session_state(&self, session_id: &str) -> (r: Option<&H>)
        ensures
            match r {
                Some(h) => self.sessions().dom().contains(session_id@) && *h == self.sessions()[session_id@],
                None => !self.sessions().dom().contains(session_id@),
            },
    {
        proof {
            use_type_invariant(self);
        }
        match self.position(session_id) {
            Some(i) => {
                proof {
                    lemma_entry_handle(self.sessions@, i as int);
                }
                Some(&self.sessions[i].1)
            },
            None => None,
        }
    }

    /// The ids of all registered sessions, each once.
    pub fn get_all_session_ids(&self) -> (ids: Vec<String>)
        ensures
            ids.deep_view().to_set() == self.sessions().dom(),
            ids.deep_view().no_duplicates(),
    {
        proof {
            use_type_invariant(self);
        }
        let mut ids: Vec<String> = Vec::new();
        let mut i: usize = 0;
        while i < self.sessions.len()
            invariant
                i <= self.sessions@.len(),
                ids_unique(self.sessions@),
                ids.deep_view() == entry_ids(self.sessions@).take(i as int),
            decreases self.sessions@.len() - i,
        {
            let id = self.sessions[i].0.clone();
            let ghost before = ids.deep_view();
            ids.push(id);
            assert(ids.deep_view() =~= before.push(id@));
            i = i + 1;
            assert(ids.deep_view() =~= entry_ids(self.sessions@).take(i as int));
        }
        let ghost e = self.sessions@;
        assert(entry_ids(e).take(e.len() as int) =~= entry_ids(e));
        assert(ids.deep_view().to_set() =~= self.sessions().dom()) by {
            assert forall|k: Seq<char>| ids.deep_view().to_set().contains(k) <==> self.sessions().dom().contains(k) by {
                if self.sessions().dom().contains(k) {
                    let j = choose|j: int| 0 <= j < e.len() && #[trigger] e[j].0@ == k;
                    assert(ids.deep_view()[j] == k);
                }
                if ids.deep_view().to_set().contains(k) {
                    let j = choose|j: int| 0 <= j < ids.deep_view().len() && ids.deep_view()[j] == k;
                    assert(e[j].0@ == k);
                }
            }
        }
        assert(ids.deep_view().no_duplicates()) by {
            assert forall|a: int, b: int| 0 <= a < ids.deep_view().len() && 0 <= b < ids.deep_view().len() && a != b
                implies ids.deep_view()[a] != ids.deep_view()[b] by {
                assert(ids.deep_view()[a] == e[a].0@);
                assert(ids.deep_view()[b] == e[b].0@);
            }
        }
        ids
    }

    /// Registers a session. A session id that is already registered is
    /// refused and the handle given back, leaving the registry unchanged.
    pub fn add_session(&mut self, session_id: &str, handle: H) -> (r: Result<(), H>)
        ensures
            old(self).sessions().dom().contains(session_id@) ==> {
                &&& r matches Err(h) && h == handle
                &&& final(self).sessions() == old(self).sessions()
            },
            !old(self).sessions().dom().contains(session_id@) ==> {
                &&& r is Ok
                &&& final(self).sessions() == old(self).sessions().insert(session_id@, handle)
            },
    {
        proof {
            use_type_invariant(&*self);
        }
        if self.position(session_id).is_some() {
            return Err(handle);
        }
        let ghost old_entries = self.sessions@;
        let entry = (session_id.to_owned(), handle);
        proof {
            lemma_push_entry(old_entries, entry);
        }
        let mut entries: Vec<(String, H)> = Vec::new();
        std::mem::swap(&mut entries, &mut self.sessions);
        entries.push(entry);
        self.sessions = entries;
        Ok(())
    }

    /// Unregisters a session and returns its handle, if it was registered.
    pub fn remove_session(&mut self, session_id: &str) -> (r: Option<H>)
        ensures
            final(self).sessions() == old(self).sessions().remove(session_id@),
            match r {
                Some(h) => old(self).sessions().dom().contains(session_id@) && h == old(self).sessions()[session_id@],
                None => !old(self).sessions().dom().contains(session_id@),
            },
    {
        proof {
            use_type_invariant(&*self);
        }
        match self.position(session_id) {
            None => {
                assert(self.sessions() =~= self.sessions().remove(session_id@));
                None
            },
            Some(i) => {
                let ghost old_entries = self.sessions@;
                proof {
                    lemma_entry_handle(old_entries, i as int);
                    lemma_remove_entry(old_entries, i as int);
                }
                let mut entries: Vec<(String, H)> = Vec::new();
                std::mem::swap(&mut entries, &mut self.sessions);
                let entry = entries.remove(i);
                self.sessions = entries;
                Some(entry.1)
            },
        }
    }

    /// Unregisters every session and returns all their handles.
    pub fn shutdown_all_sessions(&mut self) -> (handles: Vec<H>)
        ensures
            final(self).sessions() == Map::<Seq<char>, H>::empty(),
            handles@.len() == old(self).sessions().dom().len(),
            forall|k: Seq<char>| #[trigger] old(self).sessions().dom().contains(k)
                ==> handles@.contains(old(self).sessions()[k]),
    {
        proof {
            use_type_invariant(&*self);
            lemma_handles_cover(self.sessions@);
        }
        let mut handles: Vec<H> = Vec::new();
        let mut entries: Vec<(String, H)> = Vec::new();
        std::mem::swap(&mut entries, &mut self.sessions);
        let ghost e = entries@;
        let mut rest = entries;
        // Take the entries from the back, then restore registration order.
        let mut reversed: Vec<H> = Vec::new();
        while rest.len() > 0
            invariant
                rest@.len() + reversed@.len() == e.len(),
                rest@ == e.take(rest@.len() as int),
                forall|j: int| 0 <= j < reversed@.len() ==> #[trigger] reversed@[j] == e[e.len() - 1 - j].1,
            decreases rest@.len(),
        {
            let entry = rest.pop().unwrap();
            reversed.push(entry.1);
            assert(rest@ =~= e.take(rest@.len() as int));
        }
        while reversed.len() > 0
            invariant
                reversed@.len() + handles@.len() == e.len(),
                forall|j: int| 0 <= j < reversed@.len() ==> #[trigger] reversed@[j] == e[e.len() - 1 - j].1,
                forall|j: int| 0 <= j < handles@.len() ==> #[trigger] handles@[j] == e[j].1,
            decreases reversed@.len(),
        {
            let h = reversed.pop().unwrap();
            handles.push(h);
        }
        assert(self.sessions() =~= Map::<Seq<char>, H>::empty());
        assert(handles@ =~= e.map_values(|x: (String, H)| x.1));
        handles
    }
}

/// A session registered under a fresh id is found again under that id, and
/// the other sessions are unchanged.
pub proof fn registered_session_is_found<H>(sessions: Map<Seq<char>, H>, id: Seq<char>, handle: H, other: Seq<char>)
    requires
        !sessions.dom().contains(id),
        other != id,
    ensures
        sessions.insert(id, handle).dom().contains(id),
        sessions.insert(id, handle)[id] == handle,
        sessions.insert(id, handle).dom().contains(other) == sessions.dom().contains(other),
        sessions.dom().contains(other) ==> sessions.insert(id, handle)[other] == sessions[other],
{
}

/// A removed session is no longer found, and the others are unchanged.
pub proof fn removed_session_is_gone<H>(sessions: Map<Seq<char>, H>, id: Seq<char>, other: Seq<char>)
    requires
        other != id,
    ensures
        !sessions.remove(id).dom().contains(id),
        sessions.remove(id).dom().contains(other) == sessions.dom().contains(other),
        sessions.dom().contains(other) ==> sessions.remove(id)[other] == sessions[other],
{
}

} // verus!
