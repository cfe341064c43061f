//! The directory of display names that peers announced for themselves.
use vstd::prelude::*;
use crate::peer::{PeerId, short_form};

verus! {

/// The name shown for `id`: the announced one if there is one, else the
/// short rendering of the identity.
pub open spec fn resolved(names: Map<Seq<u8>, Seq<char>>, id: Seq<u8>) -> Seq<char> {
    if names.contains_key(id) {
        names[id]
    } else {
        short_form(id)
    }
}

/// Upsert: after two announcements for one identity, the later name is the
/// one resolved.
pub proof fn lemma_later_announcement_wins(
    names: Map<Seq<u8>, Seq<char>>,
    id: Seq<u8>,
    first: Seq<char>,
    second: Seq<char>,
)
    ensures
        resolved(names.insert(id, first).insert(id, second), id) == second,
{
}

/// Fallback: an identity that was never announced resolves to a non-empty
/// rendering that depends on the identity alone, whatever else the
/// directory holds.
pub proof fn lemma_fallback(names: Map<Seq<u8>, Seq<char>>, other: Map<Seq<u8>, Seq<char>>, id: Seq<u8>)
    requires
        !names.contains_key(id),
        !other.contains_key(id),
    ensures
        resolved(names, id) == short_form(id),
        resolved(names, id) == resolved(other, id),
        resolved(names, id).len() > 0,
{
}

/// A mapping from peer identity to display name, one entry per identity.
pub struct PeerDirectory {
    entries: Vec<(PeerId, String)>,
    names: Ghost<Map<Seq<u8>, Seq<char>>>,
}

impl View for PeerDirectory {
    type V = Map<Seq<u8>, Seq<char>>;

    closed spec fn view(&self) -> Map<Seq<u8>, Seq<char>> {
        self.names@
    }
}

impl PeerDirectory {
    /// The entries are keyed by distinct identities and hold exactly the
    /// mapping that the view gives.
    pub closed spec fn wf(&self) -> bool {
        &&& forall|i: int, j: int|
            0 <= i < j < self.entries@.len() ==> #[trigger] self.entries@[i].0@
                != #[trigger] self.entries@[j].0@
        &&& forall|i: int|
            0 <= i < self.entries@.len() ==> {
                &&& self.names@.contains_key(#[trigger] self.entries@[i].0@)
                &&& self.names@[self.entries@[i].0@] == self.entries@[i].1@
            }
        &&& forall|k: Seq<u8>|
            #[trigger] self.names@.contains_key(k) ==> exists|i: int|
                0 <= i < self.entries@.len() && #[trigger] self.entries@[i].0@ == k
    }

    /// An empty directory.
    pub fn new() -> (r: PeerDirectory)
        ensures
            r.wf(),
            r@ == Map::<Seq<u8>, Seq<char>>::empty(),
    {
        PeerDirectory { entries: Vec::new(), names: Ghost(Map::empty()) }
    }

    /// The number of identities with a recorded name.
    pub fn len(&self) -> (r: usize)
        requires
            self.wf(),
        ensures
            r == self@.len(),
    {
        proof {
            self.lemma_len();
        }
        self.entries.len()
    }

    proof fn lemma_len(&self)
        requires
            self.wf(),
        ensures
            self@.len() == self.entries@.len(),
    {
        let keys = self.entries@.map_values(|e: (PeerId, String)| e.0@);
        assert(keys.no_duplicates());
        assert(self@.dom() =~= keys.to_set()) by {
            assert forall|k: Seq<u8>| self@.dom().contains(k) implies keys.to_set().contains(k) by {
                let i = choose|i: int| 0 <= i < self.entries@.len() && self.entries@[i].0@ == k;
                assert(keys[i] == k);
            }
        }
        keys.unique_seq_to_set();
    }

    fn find(&self, id: &PeerId) -> (r: Option<usize>)
        requires
            self.wf(),
        ensures
            match r {
                Some(i) => i < self.entries@.len() && self.entries@[i as int].0@ == id@,
                None => !self@.contains_key(id@),
            },
    {
        let mut i: usize = 0;
        while i < self.entries.len()
            invariant
                i <= self.entries@.len(),
                forall|j: int| 0 <= j < i ==> self.entries@[j].0@ != id@,
            decreases self.entries@.len() - i,
        {
            if self.entries[i].0.same_as(id) {
                return Some(i);
            }
            i = i + 1;
        }
        None
    }

    /// Records an announced name: inserts it, or overwrites the name that
    /// the identity had before.
    pub fn record_announcement(&mut self, id: PeerId, name: String)
        requires
            old(self).wf(),
        ensures
            final(self).wf(),
            final(self)@ == old(self)@.insert(id@, name@),
    {
        let ghost new_names = self.names@.insert(id@, name@);
        match self.find(&id) {
            Some(i) => {
                self.entries.set(i, (id, name));
                self.names = Ghost(new_names);
                assert forall|k: Seq<u8>| #[trigger] self.names@.contains_key(k) implies exists|j: int|
                    0 <= j < self.entries@.len() && #[trigger] self.entries@[j].0@ == k by {
                    if k != id@ {
                        let j = choose|j: int| 0 <= j < old(self).entries@.len() && old(self).entries@[j].0@ == k;
                        assert(self.entries@[j].0@ == k);
                    } else {
                        assert(self.entries@[i as int].0@ == k);
                    }
                }
            },
            None => {
                self.entries.push((id, name));
                self.names = Ghost(new_names);
                let ghost n = self.entries@.len() - 1;
                assert forall|k: Seq<u8>| #[trigger] self.names@.contains_key(k) implies exists|j: int|
                    0 <= j < self.entries@.len() && #[trigger] self.entries@[j].0@ == k by {
                    if k != id@ {
                        let j = choose|j: int| 0 <= j < old(self).entries@.len() && old(self).entries@[j].0@ == k;
                        assert(self.entries@[j].0@ == k);
                    } else {
                        assert(self.entries@[n].0@ == k);
                    }
                }
            },
        }
    }

    /// The name to show for `id`: the recorded one, else the identity's short
    /// rendering. Never fails and leaves the directory as it is.
    pub fn resolve(&self, id: &PeerId) -> (r: String)
        requires
            self.wf(),
        ensures
            r@ == resolved(self@, id@),
    {
        match self.find(id) {
            Some(i) => self.entries[i].1.clone(),
            None => id.fmt_short(),
        }
    }
}

} // verus!
