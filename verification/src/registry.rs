//! The session registry: live sessions by their identifier.

use crate::text::same_text;
use vstd::prelude::*;

verus! {

/// One registered session and the identifier it is registered under.
struct Entry<S> {
    /// The identifier, chosen by whoever created the session.
    id: String,
    /// The session itself.
    session: S,
}

/// No identifier occurs at two positions.
spec fn distinct_ids<S>(entries: Seq<Entry<S>>) -> bool {
    forall|i: int, j: int|
        0 <= i < j < entries.len() ==> (#[trigger] entries[i]).id@ != (#[trigger] entries[j]).id@
}

/// Some entry carries the identifier `id`.
spec fn listed<S>(entries: Seq<Entry<S>>, id: Seq<char>) -> bool {
    exists|i: int| 0 <= i < entries.len() && (#[trigger] entries[i]).id@ == id
}

/// A position at which `id` is registered, if it is registered at all.
spec fn slot<S>(entries: Seq<Entry<S>>, id: Seq<char>) -> int {
    choose|i: int| 0 <= i < entries.len() && (#[trigger] entries[i]).id@ == id
}

/// The mapping that a list of entries stands for.
spec fn as_map<S>(entries: Seq<Entry<S>>) -> Map<Seq<char>, S> {
    Map::new(|id: Seq<char>| listed(entries, id), |id: Seq<char>| entries[slot(entries, id)].session)
}

/// In a list without repeated identifiers, each entry is what its identifier maps to.
proof fn lemma_entry_is_mapped<S>(entries: Seq<Entry<S>>, i: int)
    requires
        distinct_ids(entries),
        0 <= i < entries.len(),
    ensures
        as_map(entries).contains_key(entries[i].id@),
        as_map(entries)[entries[i].id@] == entries[i].session,
{
}

/// Appending an entry under a fresh identifier inserts it into the mapping.
proof fn lemma_push_inserts<S>(entries: Seq<Entry<S>>, entry: Entry<S>)
    requires
        distinct_ids(entries),
        !listed(entries, entry.id@),
    ensures
        distinct_ids(entries.push(entry)),
        as_map(entries.push(entry)) == as_map(entries).insert(entry.id@, entry.session),
{
    let grown = entries.push(entry);
    let last = entries.len() as int;
    assert(grown[last] == entry);
    assert forall|id: Seq<char>| listed(grown, id) <==> (id == entry.id@ || listed(entries, id)) by {
        if listed(entries, id) {
            let i = slot(entries, id);
            assert(grown[i] == entries[i]);
        }
    }
    assert forall|id: Seq<char>| listed(grown, id) implies #[trigger] as_map(grown)[id] == as_map(
        entries,
    ).insert(entry.id@, entry.session)[id] by {
        if id == entry.id@ {
            lemma_entry_is_mapped(grown, last);
        } else {
            let i = slot(entries, id);
            lemma_entry_is_mapped(entries, i);
            lemma_entry_is_mapped(grown, i);
        }
    }
}

/// Taking an entry out removes its identifier from the mapping and nothing else.
proof fn lemma_remove_removes<S>(entries: Seq<Entry<S>>, at: int)
    requires
        distinct_ids(entries),
        0 <= at < entries.len(),
    ensures
        distinct_ids(entries.remove(at)),
        as_map(entries.remove(at)) == as_map(entries).remove(entries[at].id@),
{
    let rest = entries.remove(at);
    let gone = entries[at].id@;
    assert forall|id: Seq<char>| listed(rest, id) <==> (id != gone && listed(entries, id)) by {
        if id != gone && listed(entries, id) {
            let a = slot(entries, id);
            let i = if a < at { a } else { a - 1 };
            assert(rest[i] == entries[a]);
        }
    }
    assert forall|id: Seq<char>| listed(rest, id) implies #[trigger] as_map(rest)[id] == as_map(
        entries,
    ).remove(gone)[id] by {
        let i = slot(rest, id);
        let a = if i < at { i } else { i + 1 };
        lemma_entry_is_mapped(rest, i);
        lemma_entry_is_mapped(entries, a);
    }
}

/// A list without repeated identifiers maps exactly as many identifiers as it
/// has entries.
proof fn lemma_size_of_map<S>(entries: Seq<Entry<S>>)
    requires
        distinct_ids(entries),
    ensures
        as_map(entries).dom().finite(),
        as_map(entries).dom().len() == entries.len(),
    decreases entries.len(),
{
    if entries.len() == 0 {
        assert(as_map(entries).dom() =~= Set::<Seq<char>>::empty());
    } else {
        let front = entries.drop_last();
        let last = entries.last();
        assert(entries =~= front.push(last));
        lemma_size_of_map(front);
        lemma_push_inserts(front, last);
    }
}

/// The live sessions, each under the identifier it was created with.
///
/// The registry stands for a finite mapping from identifiers to sessions: an
/// identifier denotes at most one live session at a time.
pub struct Registry<S> {
    entries: Vec<Entry<S>>,
}

impl<S> View for Registry<S> {
    type V = Map<Seq<char>, S>;

    closed spec fn view(&self) -> Map<Seq<char>, S> {
        as_map(self.entries@)
    }
}

impl<S> Registry<S> {
    #[verifier::type_invariant]
    spec fn well_formed(&self) -> bool {
        distinct_ids(self.entries@)
    }

    /// The registry without any session.
    pub fn new() -> (registry: Self)
        ensures
            registry@ == Map::<Seq<char>, S>::empty(),
    {
        Registry { entries: Vec::new() }
    }

    /// Where `id` is registered, if anywhere.
    fn position(&self, id: &str) -> (at: Option<usize>)
        ensures
            match at {
                Some(i) => i < self.entries@.len() && self.entries@[i as int].id@ == id@,
                None => !listed(self.entries@, id@),
            },
    {
        let mut i: usize = 0;
        while i < self.entries.len()
            invariant
                i <= self.entries@.len(),
                forall|k: int| 0 <= k < i ==> (#[trigger] self.entries@[k]).id@ != id@,
            decreases self.entries@.len() - i,
        {
            if same_text(self.entries[i].id.as_str(), id) {
                return Some(i);
            }
            i += 1;
        }
        None
    }

    /// The number of live sessions.
    pub fn len(&self) -> (count: usize)
        ensures
            self@.dom().finite(),
            count == self@.len(),
    {
        proof {
            use_type_invariant(self);
            lemma_size_of_map(self.entries@);
        }
        self.entries.len()
    }

    /// Tells whether no session is live.
    pub fn is_empty(&self) -> (empty: bool)
        ensures
            empty == (self@ == Map::<Seq<char>, S>::empty()),
    {
        proof {
            use_type_invariant(self);
            if self.entries@.len() == 0 {
                assert(self@ =~= Map::<Seq<char>, S>::empty());
            } else {
                lemma_entry_is_mapped(self.entries@, 0);
            }
        }
        self.entries.len() == 0
    }

    /// Tells whether `id` denotes a live session.
    pub fn contains(&self, id: &str) -> (live: bool)
        ensures
            live == self@.contains_key(id@),
    {
        self.position(id).is_some()
    }

    /// The session that `id` denotes, if it is live.
    pub fn get(&self, id: &str) -> (found: Option<&S>)
        ensures
            match found {
                Some(session) => self@.contains_key(id@) && *session == self@[id@],
                None => !self@.contains_key(id@),
            },
    {
        match self.position(id) {
            Some(i) => {
                proof {
                    use_type_invariant(self);
                    lemma_entry_is_mapped(self.entries@, i as int);
                }
                Some(&self.entries[i].session)
            },
            None => None,
        }
    }

    /// Registers `session` under `id` unless `id` already denotes a live
    /// session; in that case the registry stays as it is and the session is
    /// handed back.
    pub fn insert(&mut self, id: String, session: S) -> (outcome: Result<(), S>)
        ensures
            old(self)@.contains_key(id@) ==> outcome == Err::<(), S>(session) && final(self)@ == old(
                self,
            )@,
            !old(self)@.contains_key(id@) ==> outcome is Ok && final(self)@ == old(self)@.insert(
                id@,
                session,
            ),
    {
        proof {
            use_type_invariant(&*self);
        }
        match self.position(id.as_str()) {
            Some(_) => Err(session),
            None => {
                let entry = Entry { id, session };
                proof {
                    lemma_push_inserts(self.entries@, entry);
                }
                let mut entries: Vec<Entry<S>> = Vec::new();
                core::mem::swap(&mut self.entries, &mut entries);
                entries.push(entry);
                core::mem::swap(&mut self.entries, &mut entries);
                Ok(())
            },
        }
    }

    /// Takes the session that `id` denotes out of the registry and hands it
    /// over; leaves the registry as it is when `id` denotes none.
    pub fn remove(&mut self, id: &str) -> (removed: Option<S>)
        ensures
            final(self)@ == old(self)@.remove(id@),
            removed == old(self)@.get(id@),
    {
        proof {
            use_type_invariant(&*self);
        }
        match self.position(id) {
            Some(i) => {
                proof {
                    lemma_entry_is_mapped(self.entries@, i as int);
                    lemma_remove_removes(self.entries@, i as int);
                }
                let mut entries: Vec<Entry<S>> = Vec::new();
                core::mem::swap(&mut self.entries, &mut entries);
                let entry = entries.remove(i);
                core::mem::swap(&mut self.entries, &mut entries);
                Some(entry.session)
            },
            None => None,
        }
    }
}

} // verus!
