//! The registry of connected peers: each name with the handle through which
//! signals reach the peer's connection.
//!
//! A name is registered at most once. The entries keep the order in which
//! the peers joined.

use vstd::prelude::*;
use crate::signal::texts;
use crate::text::same_text;

verus! {

/// The entries of a registry: names with their handles, in the order of
/// joining.
pub type Roster<H> = Seq<(Seq<char>, H)>;

/// Whether some entry has the name.
pub open spec fn registered<H>(roster: Roster<H>, name: Seq<char>) -> bool {
    exists|i: int| 0 <= i < roster.len() && (#[trigger] roster[i]).0 == name
}

/// Whether no name occurs twice.
pub open spec fn distinct<H>(roster: Roster<H>) -> bool {
    forall|i: int, j: int|
        0 <= i < j < roster.len() ==> (#[trigger] roster[i]).0 != (#[trigger] roster[j]).0
}

/// Whether exactly one entry has the name.
pub open spec fn registered_once<H>(roster: Roster<H>, name: Seq<char>) -> bool {
    exists|i: int|
        0 <= i < roster.len() && (#[trigger] roster[i]).0 == name && forall|j: int|
            0 <= j < roster.len() && (#[trigger] roster[j]).0 == name ==> j == i
}

/// Whether every one of the names is registered.
pub open spec fn all_registered<H>(roster: Roster<H>, names: Seq<Seq<char>>) -> bool {
    forall|i: int| 0 <= i < names.len() ==> registered(roster, #[trigger] names[i])
}

/// Where the entry with the name stands, if there is one.
pub open spec fn position<H>(roster: Roster<H>, name: Seq<char>) -> int {
    choose|i: int| 0 <= i < roster.len() && (#[trigger] roster[i]).0 == name
}

/// The handle registered under the name, if there is one.
pub open spec fn handle_of<H>(roster: Roster<H>, name: Seq<char>) -> H {
    roster[position(roster, name)].1
}

/// The names, in the order of joining.
pub open spec fn names_of<H>(roster: Roster<H>) -> Seq<Seq<char>> {
    roster.map_values(|entry: (Seq<char>, H)| entry.0)
}

/// The roster after a peer asks to join: the new entry comes last, and a
/// roster that has the name already stays as it is.
pub open spec fn after_join<H>(roster: Roster<H>, name: Seq<char>, handle: H) -> Roster<H> {
    if registered(roster, name) {
        roster
    } else {
        roster.push((name, handle))
    }
}

/// The roster after a peer leaves: its entry is gone and the others keep
/// their order; a roster without the name stays as it is.
pub open spec fn after_leave<H>(roster: Roster<H>, name: Seq<char>) -> Roster<H> {
    if registered(roster, name) {
        roster.remove(position(roster, name))
    } else {
        roster
    }
}

/// In a roster without repeated names, the entry with a name stands where
/// [`position`] says.
pub proof fn lemma_position<H>(roster: Roster<H>, i: int)
    requires
        distinct(roster),
        0 <= i < roster.len(),
    ensures
        registered(roster, roster[i].0),
        position(roster, roster[i].0) == i,
        handle_of(roster, roster[i].0) == roster[i].1,
{
    let p = position(roster, roster[i].0);
    assert(roster[p].0 == roster[i].0);
}

/// Joining keeps the names distinct and registers the name; a name that was
/// free is registered with the handle that came with it.
pub proof fn lemma_after_join<H>(roster: Roster<H>, name: Seq<char>, handle: H)
    requires
        distinct(roster),
    ensures
        distinct(after_join(roster, name, handle)),
        registered(after_join(roster, name, handle), name),
        !registered(roster, name) ==> handle_of(after_join(roster, name, handle), name) == handle,
        forall|other: Seq<char>|
            other != name ==> registered(after_join(roster, name, handle), other) == registered(
                roster,
                other,
            ),
{
    let next = after_join(roster, name, handle);
    if !registered(roster, name) {
        let last = roster.len() as int;
        assert(distinct(next));
        lemma_position(next, last);
        assert forall|other: Seq<char>| other != name implies registered(next, other)
            == registered(roster, other) by {
            if registered(roster, other) {
                let i = position(roster, other);
                assert(next[i].0 == other);
            }
        }
    }
}

/// Leaving keeps the names distinct and frees the name; every other name
/// stays registered as it was, with its handle.
pub proof fn lemma_after_leave<H>(roster: Roster<H>, name: Seq<char>)
    requires
        distinct(roster),
    ensures
        distinct(after_leave(roster, name)),
        !registered(after_leave(roster, name), name),
        forall|other: Seq<char>|
            other != name ==> registered(after_leave(roster, name), other) == registered(
                roster,
                other,
            ),
        forall|other: Seq<char>|
            other != name && registered(roster, other) ==> handle_of(
                after_leave(roster, name),
                other,
            ) == handle_of(roster, other),
{
    let next = after_leave(roster, name);
    if registered(roster, name) {
        let p = position(roster, name);
        // Every entry of `next` is an entry of `roster`: the one at the same
        // place before `p`, the one a place further from `p` on.
        assert forall|i: int| 0 <= i < next.len() implies #[trigger] next[i] == roster[if i < p {
            i
        } else {
            i + 1
        }] by {}
        assert(distinct(next));
        if registered(next, name) {
            let i = position(next, name);
            lemma_position(roster, if i < p { i } else { i + 1 });
        }
        assert forall|other: Seq<char>| other != name implies registered(next, other)
            == registered(roster, other) && (registered(roster, other) ==> handle_of(next, other)
            == handle_of(roster, other)) by {
            if registered(roster, other) {
                let i = position(roster, other);
                lemma_position(next, if i < p { i } else { i - 1 });
                lemma_position(roster, i);
            }
        }
    }
}

/// Of two joins under one name, whichever comes first, at most one succeeds:
/// the first succeeds exactly when the name was free, the second never does
/// and changes nothing, and afterwards the name is registered exactly once.
pub proof fn law_join_is_exclusive<H>(roster: Roster<H>, name: Seq<char>, first: H, second: H)
    requires
        distinct(roster),
    ensures
        ({
            let once = after_join(roster, name, first);
            let twice = after_join(once, name, second);
            &&& registered(once, name)
            &&& twice == once
            &&& registered_once(twice, name)
            &&& !registered(roster, name) ==> handle_of(twice, name) == first
        }),
{
    let once = after_join(roster, name, first);
    lemma_after_join(roster, name, first);
    let p = position(once, name);
    assert forall|j: int| 0 <= j < once.len() && (#[trigger] once[j]).0 == name implies j == p by {
        lemma_position(once, j);
    }
}

/// A name that left can join again: after a peer joined and left, the name
/// is free, and the next join under it succeeds with its own handle.
pub proof fn law_leave_releases_name<H>(roster: Roster<H>, name: Seq<char>, first: H, second: H)
    requires
        distinct(roster),
    ensures
        ({
            let left = after_leave(after_join(roster, name, first), name);
            let again = after_join(left, name, second);
            &&& !registered(left, name)
            &&& registered_once(again, name)
            &&& handle_of(again, name) == second
        }),
{
    let once = after_join(roster, name, first);
    lemma_after_join(roster, name, first);
    let left = after_leave(once, name);
    lemma_after_leave(once, name);
    law_join_is_exclusive(left, name, second, second);
}

/// Leaving twice is leaving once: the second leave changes nothing, and the
/// name is not registered afterwards.
pub proof fn law_leave_is_idempotent<H>(roster: Roster<H>, name: Seq<char>)
    requires
        distinct(roster),
    ensures
        after_leave(after_leave(roster, name), name) == after_leave(roster, name),
        !registered(after_leave(roster, name), name),
{
    lemma_after_leave(roster, name);
}

/// The refusal of a join under a name that is already registered.
#[derive(Clone, Copy, Debug, PartialEq, Eq, Structural)]
pub struct AlreadyJoined;

/// The registry: names with their handles, each name at most once.
pub struct Registry<H> {
    entries: Vec<(String, H)>,
}

impl<H> View for Registry<H> {
    type V = Roster<H>;

    closed spec fn view(&self) -> Roster<H> {
        self.entries@.map_values(|entry: (String, H)| (entry.0@, entry.1))
    }
}

impl<H> Registry<H> {
    /// What holds of every registry: no name occurs twice.
    #[verifier::type_invariant]
    spec fn names_are_distinct(self) -> bool {
        distinct(self@)
    }

    /// The empty registry.
    pub fn new() -> (registry: Self)
        ensures
            registry@ == Seq::<(Seq<char>, H)>::empty(),
    {
        let registry = Registry { entries: Vec::new() };
        registry
    }

    /// The number of registered names. No name is counted twice, as none
    /// occurs twice.
    pub fn len(&self) -> (n: usize)
        ensures
            n == self@.len(),
            distinct(self@),
    {
        proof {
            use_type_invariant(self);
        }
        self.entries.len()
    }

    /// The name and the handle of the entry at `index`, counted in the order
    /// of joining; `None` past the last entry.
    pub fn entry(&self, index: usize) -> (r: Option<(&String, &H)>)
        ensures
            match r {
                Some((name, handle)) => index < self@.len() && self@[index as int] == (
                    name@,
                    *handle,
                ),
                None => index >= self@.len(),
            },
    {
        if index < self.entries.len() {
            Some((&self.entries[index].0, &self.entries[index].1))
        } else {
            None
        }
    }

    /// Where the entry with the name stands.
    fn index_of(&self, name: &str) -> (r: Option<usize>)
        ensures
            match r {
                Some(i) => i < self@.len() && self@[i as int].0 == name@,
                None => !registered(self@, name@),
            },
    {
        let mut i: usize = 0;
        while i < self.entries.len()
            invariant
                i <= self.entries.len(),
                self@.len() == self.entries.len(),
                forall|j: int| 0 <= j < i ==> (#[trigger] self@[j]).0 != name@,
            decreases self.entries.len() - i,
        {
            if same_text(self.entries[i].0.as_str(), name) {
                return Some(i);
            }
            i = i + 1;
        }
        None
    }

    /// Whether the name is registered.
    pub fn contains(&self, name: &str) -> (r: bool)
        ensures
            r == registered(self@, name@),
    {
        self.index_of(name).is_some()
    }

    /// Registers the name with the handle, unless the name is registered
    /// already: then nothing changes, and the join is refused.
    pub fn join(&mut self, name: String, handle: H) -> (r: Result<(), AlreadyJoined>)
        ensures
            final(self)@ == after_join(old(self)@, name@, handle),
            r is Ok <==> !registered(old(self)@, name@),
            registered(final(self)@, name@),
            distinct(final(self)@),
    {
        proof {
            use_type_invariant(&*self);
            lemma_after_join(self@, name@, handle);
        }
        match self.index_of(name.as_str()) {
            Some(_) => Err(AlreadyJoined),
            None => {
                let mut entries: Vec<(String, H)> = Vec::new();
                std::mem::swap(&mut entries, &mut self.entries);
                entries.push((name, handle));
                proof {
                    let next = entries@.map_values(|entry: (String, H)| (entry.0@, entry.1));
                    assert(next =~= old(self)@.push((name@, handle)));
                }
                self.entries = entries;
                Ok(())
            },
        }
    }

    /// Removes the entry of the name, if there is one.
    pub fn leave(&mut self, name: &str)
        ensures
            final(self)@ == after_leave(old(self)@, name@),
            !registered(final(self)@, name@),
            distinct(final(self)@),
    {
        proof {
            use_type_invariant(&*self);
            lemma_after_leave(self@, name@);
        }
        match self.index_of(name) {
            None => {},
            Some(i) => {
                proof {
                    lemma_position(self@, i as int);
                }
                let mut entries: Vec<(String, H)> = Vec::new();
                std::mem::swap(&mut entries, &mut self.entries);
                entries.remove(i);
                proof {
                    let next = entries@.map_values(|entry: (String, H)| (entry.0@, entry.1));
                    assert(next =~= old(self)@.remove(i as int));
                }
                self.entries = entries;
            },
        }
    }

    /// The handle registered under the name.
    pub fn resolve(&self, name: &str) -> (r: Option<&H>)
        ensures
            match r {
                Some(handle) => registered(self@, name@) && *handle == handle_of(self@, name@),
                None => !registered(self@, name@),
            },
    {
        proof {
            use_type_invariant(self);
        }
        match self.index_of(name) {
            None => None,
            Some(i) => {
                proof {
                    lemma_position(self@, i as int);
                }
                Some(&self.entries[i].1)
            },
        }
    }

    /// The registered names, in the order of joining.
    pub fn snapshot_names(&self) -> (names: Vec<String>)
        ensures
            texts(names@) == names_of(self@),
    {
        let mut names: Vec<String> = Vec::new();
        let mut i: usize = 0;
        while i < self.entries.len()
            invariant
                i <= self.entries.len(),
                self@.len() == self.entries.len(),
                names.len() == i,
                forall|j: int| 0 <= j < i ==> (#[trigger] names[j])@ == self@[j].0,
            decreases self.entries.len() - i,
        {
            names.push(self.entries[i].0.clone());
            i = i + 1;
        }
        names
    }
}

} // verus!
