//! Handles on the session's D-Bus connections, kept by the name they own.

use vstd::prelude::*;
use zbus::Connection;

verus! {

/// A connection to the D-Bus message bus (`zbus::Connection`); the library
/// carries it and never looks inside.
#[verifier::external_type_specification]
#[verifier::external_body]
pub struct ExConnection(Connection);

/// A connection that owns a well-known bus `name` and serves an object at `path`.
#[derive(Debug)]
pub struct BusHandle {
    pub conn: Connection,
    pub name: String,
    pub path: String,
}

impl BusHandle {
    /// Creates a new handle from a connection, name, and path.
    pub fn new(conn: Connection, name: String, path: String) -> (handle: Self)
        ensures
            handle.conn == conn,
            handle.name == name,
            handle.path == path,
    {
        BusHandle { conn, name, path }
    }

    /// The connection of this handle.
    pub fn get_conn(&self) -> (conn: &Connection)
        ensures
            *conn == self.conn,
    {
        &self.conn
    }
}

/// Whether no two entries of `entries` are filed under the same name.
pub open spec fn keys_distinct(entries: Seq<(String, BusHandle)>) -> bool {
    forall|i: int, j: int|
        0 <= i < entries.len() && 0 <= j < entries.len() && i != j ==> #[trigger] entries[i].0@
            != #[trigger] entries[j].0@
}

/// Whether some entry of `entries` is filed under `name`.
pub open spec fn has_key(entries: Seq<(String, BusHandle)>, name: Seq<char>) -> bool {
    exists|i: int| 0 <= i < entries.len() && #[trigger] entries[i].0@ == name
}

/// The map from name to handle that a list of entries stands for.
pub open spec fn entries_map(entries: Seq<(String, BusHandle)>) -> Map<Seq<char>, BusHandle>
    decreases entries.len(),
{
    if entries.len() == 0 {
        Map::empty()
    } else {
        entries_map(entries.drop_last()).insert(entries.last().0@, entries.last().1)
    }
}

/// With distinct names, the map holds exactly the names of the entries, each
/// with the handle filed under it.
pub proof fn lemma_entries_map(entries: Seq<(String, BusHandle)>)
    requires
        keys_distinct(entries),
    ensures
        forall|name: Seq<char>|
            #[trigger] entries_map(entries).contains_key(name) <==> has_key(entries, name),
        forall|i: int|
            0 <= i < entries.len() ==> entries_map(entries)[#[trigger] entries[i].0@]
                == entries[i].1,
    decreases entries.len(),
{
    if entries.len() > 0 {
        let rest = entries.drop_last();
        assert(keys_distinct(rest)) by {
            assert forall|i: int, j: int|
                0 <= i < rest.len() && 0 <= j < rest.len() && i != j implies #[trigger] rest[i].0@
                != #[trigger] rest[j].0@ by {
                assert(rest[i] == entries[i]);
                assert(rest[j] == entries[j]);
            }
        }
        lemma_entries_map(rest);
        let last = entries.len() - 1;
        assert(entries_map(entries) == entries_map(rest).insert(entries[last].0@, entries[last].1));
        assert forall|name: Seq<char>|
            #[trigger] entries_map(entries).contains_key(name) <==> has_key(entries, name) by {
            if has_key(entries, name) {
                let i = choose|i: int| 0 <= i < entries.len() && #[trigger] entries[i].0@ == name;
                if i < last {
                    assert(rest[i] == entries[i]);
                    assert(rest[i].0@ == name);
                }
            }
            if has_key(rest, name) {
                let i = choose|i: int| 0 <= i < rest.len() && #[trigger] rest[i].0@ == name;
                assert(rest[i] == entries[i]);
                assert(entries[i].0@ == name);
            }
            if name == entries[last].0@ {
                assert(entries[last].0@ == name);
            }
        }
        assert forall|i: int| 0 <= i < entries.len() implies entries_map(entries)[#[trigger] entries[i].0@]
            == entries[i].1 by {
            if i < last {
                assert(rest[i] == entries[i]);
                assert(entries[i].0@ != entries[last].0@);
            }
        }
    }
}

/// Replacing the entry at `i` by one under the same name files the new
/// handle under that name and changes nothing else.
pub proof fn lemma_entries_map_update(entries: Seq<(String, BusHandle)>, i: int, entry: (String, BusHandle))
    requires
        keys_distinct(entries),
        0 <= i < entries.len(),
        entry.0@ == entries[i].0@,
    ensures
        keys_distinct(entries.update(i, entry)),
        entries_map(entries.update(i, entry)) == entries_map(entries).insert(entry.0@, entry.1),
{
    let updated = entries.update(i, entry);
    assert(keys_distinct(updated)) by {
        assert forall|a: int, b: int|
            0 <= a < updated.len() && 0 <= b < updated.len() && a != b implies #[trigger] updated[a].0@
            != #[trigger] updated[b].0@ by {
            assert(entries[a].0@ != entries[b].0@);
        }
    }
    lemma_entries_map(entries);
    lemma_entries_map(updated);
    let before = entries_map(entries).insert(entry.0@, entry.1);
    let after = entries_map(updated);
    assert forall|name: Seq<char>| #[trigger] after.contains_key(name) <==> before.contains_key(name) by {
        if has_key(entries, name) {
            let j = choose|j: int| 0 <= j < entries.len() && #[trigger] entries[j].0@ == name;
            assert(updated[j].0@ == name);
        }
        if has_key(updated, name) {
            let j = choose|j: int| 0 <= j < updated.len() && #[trigger] updated[j].0@ == name;
            assert(entries[j].0@ == name);
        }
    }
    assert forall|name: Seq<char>| #[trigger] after.contains_key(name) implies after[name] == before[name] by {
        let j = choose|j: int| 0 <= j < updated.len() && #[trigger] updated[j].0@ == name;
        assert(updated[j].0@ == name);
        if j != i {
            assert(entries[j].0@ == name);
        }
    }
    assert(after =~= before);
}

/// Appending an entry under a new name files its handle under that name.
pub proof fn lemma_entries_map_push(entries: Seq<(String, BusHandle)>, entry: (String, BusHandle))
    requires
        keys_distinct(entries),
        !has_key(entries, entry.0@),
    ensures
        keys_distinct(entries.push(entry)),
        entries_map(entries.push(entry)) == entries_map(entries).insert(entry.0@, entry.1),
{
    let pushed = entries.push(entry);
    assert(keys_distinct(pushed)) by {
        assert forall|a: int, b: int|
            0 <= a < pushed.len() && 0 <= b < pushed.len() && a != b implies #[trigger] pushed[a].0@
            != #[trigger] pushed[b].0@ by {
            if a < entries.len() && b < entries.len() {
                assert(entries[a].0@ != entries[b].0@);
            } else if a < entries.len() {
                assert(pushed[a] == entries[a]);
            } else {
                assert(pushed[b] == entries[b]);
            }
        }
    }
    assert(pushed.drop_last() =~= entries);
}

/// Removing the entry at `i` removes its name from the map and changes
/// nothing else.
pub proof fn lemma_entries_map_remove(entries: Seq<(String, BusHandle)>, i: int)
    requires
        keys_distinct(entries),
        0 <= i < entries.len(),
    ensures
        keys_distinct(entries.remove(i)),
        entries_map(entries.remove(i)) == entries_map(entries).remove(entries[i].0@),
{
    let removed = entries.remove(i);
    assert(keys_distinct(removed)) by {
        assert forall|a: int, b: int|
            0 <= a < removed.len() && 0 <= b < removed.len() && a != b implies #[trigger] removed[a].0@
            != #[trigger] removed[b].0@ by {
            let a2 = if a < i { a } else { a + 1 };
            let b2 = if b < i { b } else { b + 1 };
            assert(removed[a] == entries[a2]);
            assert(removed[b] == entries[b2]);
            assert(entries[a2].0@ != entries[b2].0@);
        }
    }
    lemma_entries_map(entries);
    lemma_entries_map(removed);
    let key = entries[i].0@;
    let before = entries_map(entries).remove(key);
    let after = entries_map(removed);
    assert forall|name: Seq<char>| #[trigger] after.contains_key(name) <==> before.contains_key(name) by {
        if has_key(entries, name) && name != key {
            let j = choose|j: int| 0 <= j < entries.len() && #[trigger] entries[j].0@ == name;
            assert(j != i);
            let j2 = if j < i { j } else { j - 1 };
            assert(removed[j2] == entries[j]);
        }
        if has_key(removed, name) {
            let j = choose|j: int| 0 <= j < removed.len() && #[trigger] removed[j].0@ == name;
            let j2 = if j < i { j } else { j + 1 };
            assert(removed[j] == entries[j2]);
            assert(j2 != i);
            assert(entries[j2].0@ != entries[i].0@);
        }
    }
    assert forall|name: Seq<char>| #[trigger] after.contains_key(name) implies after[name] == before[name] by {
        let j = choose|j: int| 0 <= j < removed.len() && #[trigger] removed[j].0@ == name;
        let j2 = if j < i { j } else { j + 1 };
        assert(removed[j] == entries[j2]);
        assert(entries[j2].0@ == name);
    }
    assert(after =~= before);
}

/// With distinct names, the map is finite and holds one name per entry.
pub proof fn lemma_entries_map_len(entries: Seq<(String, BusHandle)>)
    requires
        keys_distinct(entries),
    ensures
        entries_map(entries).dom().finite(),
        entries_map(entries).len() == entries.len(),
    decreases entries.len(),
{
    broadcast use vstd::set::group_set_axioms;

    if entries.len() > 0 {
        let rest = entries.drop_last();
        let last = entries.len() - 1;
        assert(keys_distinct(rest)) by {
            assert forall|i: int, j: int|
                0 <= i < rest.len() && 0 <= j < rest.len() && i != j implies #[trigger] rest[i].0@
                != #[trigger] rest[j].0@ by {
                assert(rest[i] == entries[i]);
                assert(rest[j] == entries[j]);
            }
        }
        lemma_entries_map_len(rest);
        lemma_entries_map(rest);
        assert(!has_key(rest, entries[last].0@)) by {
            if has_key(rest, entries[last].0@) {
                let i = choose|i: int| 0 <= i < rest.len() && #[trigger] rest[i].0@ == entries[last].0@;
                assert(rest[i] == entries[i]);
                assert(entries[i].0@ != entries[last].0@);
            }
        }
        assert(entries_map(entries) == entries_map(rest).insert(entries[last].0@, entries[last].1));
        assert(entries_map(entries).dom() =~= entries_map(rest).dom().insert(entries[last].0@));
    }
}

/// The handles after `add_handle(handle)`: `handle` filed under its name,
/// replacing whatever was filed there.
pub open spec fn spec_add_handle(handles: Map<Seq<char>, BusHandle>, handle: BusHandle) -> Map<
    Seq<char>,
    BusHandle,
> {
    handles.insert(handle.name@, handle)
}

/// The handles after `remove_handle(name)`.
pub open spec fn spec_remove_handle(handles: Map<Seq<char>, BusHandle>, name: Seq<char>) -> Map<
    Seq<char>,
    BusHandle,
> {
    handles.remove(name)
}

/// What `get_handle(name)` finds.
pub open spec fn spec_get_handle(handles: Map<Seq<char>, BusHandle>, name: Seq<char>) -> Option<BusHandle> {
    if handles.contains_key(name) {
        Some(handles[name])
    } else {
        None
    }
}

/// The handles of the session, each filed under the bus name it owns.
///
/// The handles are kept as a list of (name, handle) entries in which no name
/// occurs twice, and stand for the finite map from name to handle. A
/// `HashMap<String, _>` of std would hold them as well, but vstd proves
/// nothing of its lookups with `String` keys, and vstd's `StringHashMap` has
/// no mutable lookup to give `get_handle_mut`.
pub struct HandleManager {
    handles: Vec<(String, BusHandle)>,
}

impl View for HandleManager {
    type V = Map<Seq<char>, BusHandle>;

    closed spec fn view(&self) -> Map<Seq<char>, BusHandle> {
        entries_map(self.handles@)
    }
}

impl HandleManager {
    /// No two handles are filed under the same name. Kept as a precondition
    /// that [`HandleManager::new`] establishes and every method keeps, rather
    /// than as a type invariant, since `get_handle_mut` lends a mutable borrow
    /// into the entries.
    pub closed spec fn wf(&self) -> bool {
        keys_distinct(self.handles@)
    }

    /// A well-formed manager stands for a finite map.
    pub proof fn lemma_wf_finite(&self)
        requires
            self.wf(),
        ensures
            self@.dom().finite(),
    {
        lemma_entries_map_len(self.handles@);
    }

    /// An empty manager.
    pub fn new() -> (manager: Self)
        ensures
            manager.wf(),
            manager@ == Map::<Seq<char>, BusHandle>::empty(),
            manager@.dom().finite(),
    {
        HandleManager { handles: Vec::new() }
    }

    /// The position of the entry filed under `name`, if there is one.
    fn find(&self, name: &str) -> (found: Option<usize>)
        requires
            self.wf(),
        ensures
            match found {
                Some(i) => i < self.handles@.len() && self.handles@[i as int].0@ == name@,
                None => !has_key(self.handles@, name@),
            },
    {
        let key = String::from_str(name);
        let mut i: usize = 0;
        while i < self.handles.len()
            invariant
                i <= self.handles@.len(),
                key@ == name@,
                forall|j: int| 0 <= j < i ==> #[trigger] self.handles@[j].0@ != name@,
            decreases self.handles@.len() - i,
        {
            if self.handles[i].0 == key {
                return Some(i);
            }
            i = i + 1;
        }
        None
    }

    /// Files `handle` under its bus name, replacing any handle filed there.
    pub fn add_handle(&mut self, handle: BusHandle)
        requires
            old(self).wf(),
        ensures
            final(self).wf(),
            final(self)@ == spec_add_handle(old(self)@, handle),
            final(self)@.dom().finite(),
            final(self)@.len() == if old(self)@.contains_key(handle.name@) {
                old(self)@.len()
            } else {
                old(self)@.len() + 1
            },
    {
        let key = handle.name.clone();
        proof {
            lemma_entries_map(self.handles@);
            lemma_entries_map_len(self.handles@);
        }
        match self.find(handle.name.as_str()) {
            Some(i) => {
                proof {
                    lemma_entries_map_update(self.handles@, i as int, (key, handle));
                    lemma_entries_map_len(self.handles@.update(i as int, (key, handle)));
                }
                self.handles.set(i, (key, handle));
            },
            None => {
                proof {
                    lemma_entries_map_push(self.handles@, (key, handle));
                    lemma_entries_map_len(self.handles@.push((key, handle)));
                }
                self.handles.push((key, handle));
            },
        }
    }

    /// The handle filed under `name`, if any.
    pub fn get_handle(&self, name: &str) -> (handle: Option<&BusHandle>)
        requires
            self.wf(),
        ensures
            match handle {
                Some(h) => spec_get_handle(self@, name@) == Some(*h),
                None => spec_get_handle(self@, name@) is None,
            },
    {
        proof {
            lemma_entries_map(self.handles@);
        }
        match self.find(name) {
            Some(i) => Some(&self.handles[i].1),
            None => None,
        }
    }

    /// A mutable borrow of the handle filed under `name`, if any; the handle
    /// stays filed under `name` whatever is written through it.
    pub fn get_handle_mut(&mut self, name: &str) -> (handle: Option<&mut BusHandle>)
        requires
            old(self).wf(),
        ensures
            final(self).wf(),
            final(self)@.dom().finite(),
            match handle {
                Some(h) => {
                    &&& old(self)@.contains_key(name@)
                    &&& *h == old(self)@[name@]
                    &&& final(self)@ == old(self)@.insert(name@, *final(h))
                },
                None => {
                    &&& !old(self)@.contains_key(name@)
                    &&& final(self)@ == old(self)@
                },
            },
    {
        proof {
            lemma_entries_map(self.handles@);
        }
        match self.find(name) {
            Some(i) => {
                let ghost entries = self.handles@;
                let entry = &mut self.handles[i];
                let handle = &mut entry.1;
                proof {
                    lemma_entries_map_update(entries, i as int, (entries[i as int].0, *final(handle)));
                    lemma_entries_map_len(entries.update(i as int, (entries[i as int].0, *final(handle))));
                }
                Some(handle)
            },
            None => {
                proof {
                    lemma_entries_map_len(self.handles@);
                }
                None
            },
        }
    }

    /// Takes the handle filed under `name` out of the manager.
    pub fn remove_handle(&mut self, name: &str)
        requires
            old(self).wf(),
            old(self)@.contains_key(name@),
        ensures
            final(self).wf(),
            final(self)@ == spec_remove_handle(old(self)@, name@),
            final(self)@.dom().finite(),
            final(self)@.len() == old(self)@.len() - 1,
    {
        proof {
            lemma_entries_map(self.handles@);
        }
        match self.find(name) {
            Some(i) => {
                proof {
                    lemma_entries_map_remove(self.handles@, i as int);
                    lemma_entries_map_len(self.handles@);
                    lemma_entries_map_len(self.handles@.remove(i as int));
                }
                self.handles.remove(i);
            },
            None => {},
        }
    }

    /// Every handle with the name it is filed under.
    pub fn get_handles(&self) -> (handles: &[(String, BusHandle)])
        requires
            self.wf(),
        ensures
            keys_distinct(handles@),
            entries_map(handles@) == self@,
            handles@.len() == self@.len(),
    {
        proof {
            lemma_entries_map_len(self.handles@);
        }
        self.handles.as_slice()
    }
}


/// Reading back a write: after `add_handle(handle)`, `get_handle` of its
/// name finds exactly `handle`, whatever was filed there before.
pub proof fn lemma_get_after_add(handles: Map<Seq<char>, BusHandle>, handle: BusHandle)
    ensures
        spec_get_handle(spec_add_handle(handles, handle), handle.name@) == Some(handle),
{
}

/// `add_handle(handle)` leaves what `get_handle` finds under every other
/// name as it was.
pub proof fn lemma_add_keeps_others(handles: Map<Seq<char>, BusHandle>, handle: BusHandle, name: Seq<char>)
    requires
        name != handle.name@,
    ensures
        spec_get_handle(spec_add_handle(handles, handle), name) == spec_get_handle(handles, name),
{
}

/// After `remove_handle(name)`, `get_handle(name)` finds nothing, and what it
/// finds under every other name is as it was.
pub proof fn lemma_get_after_remove(handles: Map<Seq<char>, BusHandle>, name: Seq<char>, other: Seq<char>)
    requires
        other != name,
    ensures
        spec_get_handle(spec_remove_handle(handles, name), name) is None,
        spec_get_handle(spec_remove_handle(handles, name), other) == spec_get_handle(handles, other),
{
}

/// `remove_handle` undoes `add_handle` of a handle whose name was free.
pub proof fn lemma_remove_undoes_add(handles: Map<Seq<char>, BusHandle>, handle: BusHandle)
    requires
        spec_get_handle(handles, handle.name@) is None,
    ensures
        spec_remove_handle(spec_add_handle(handles, handle), handle.name@) == handles,
{
    assert(spec_remove_handle(spec_add_handle(handles, handle), handle.name@) =~= handles);
}

} // verus!
