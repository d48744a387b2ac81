//! The escrow store: a key-value mapping from commitment to escrow entry
//! with first-writer-wins creation, viewed as a mathematical `Map`.
//!
//! Entries are never deleted; a spent entry stays readable for audit.

use vstd::prelude::*;

verus! {

use crate::errors::Error;
use crate::types::{Commitment, EntryView, EscrowEntry};

/// The map described by an association list of (commitment, entry) slots.
pub open spec fn map_of(s: Seq<(Commitment, EscrowEntry)>) -> Map<Seq<u8>, EntryView>
    decreases s.len(),
{
    if s.len() == 0 {
        Map::empty()
    } else {
        map_of(s.drop_last()).insert(s.last().0@, s.last().1@)
    }
}

/// No two slots share a commitment.
pub open spec fn keys_unique(s: Seq<(Commitment, EscrowEntry)>) -> bool {
    forall|i: int, j: int| 0 <= i < j < s.len() ==> s[i].0@ != s[j].0@
}

/// A key is in the map exactly when some slot carries it.
proof fn lemma_map_of_contains(s: Seq<(Commitment, EscrowEntry)>, k: Seq<u8>)
    ensures
        map_of(s).contains_key(k) <==> exists|i: int| 0 <= i < s.len() && #[trigger] s[i].0@ == k,
    decreases s.len(),
{
    if s.len() > 0 {
        lemma_map_of_contains(s.drop_last(), k);
        if map_of(s).contains_key(k) {
            if s.last().0@ == k {
                assert(s[s.len() - 1].0@ == k);
            } else {
                let i = choose|i: int| 0 <= i < s.drop_last().len() && #[trigger] s.drop_last()[i].0@ == k;
                assert(s[i].0@ == k);
            }
        }
        if exists|i: int| 0 <= i < s.len() && #[trigger] s[i].0@ == k {
            let i = choose|i: int| 0 <= i < s.len() && #[trigger] s[i].0@ == k;
            if i < s.len() - 1 {
                assert(s.drop_last()[i].0@ == k);
            }
        }
    }
}

/// With unique keys, the slot carrying a key determines its map value.
proof fn lemma_map_of_index(s: Seq<(Commitment, EscrowEntry)>, i: int)
    requires
        keys_unique(s),
        0 <= i < s.len(),
    ensures
        map_of(s).contains_key(s[i].0@),
        map_of(s)[s[i].0@] == s[i].1@,
    decreases s.len(),
{
    if i == s.len() - 1 {
    } else {
        assert(s.drop_last()[i] == s[i]);
        lemma_map_of_index(s.drop_last(), i);
        assert(s[i].0@ != s[s.len() - 1].0@);
    }
}

/// Replacing the slot that carries a key updates exactly that key.
proof fn lemma_map_of_update(s: Seq<(Commitment, EscrowEntry)>, i: int, p: (Commitment, EscrowEntry))
    requires
        keys_unique(s),
        0 <= i < s.len(),
        p.0@ == s[i].0@,
    ensures
        map_of(s.update(i, p)) =~= map_of(s).insert(p.0@, p.1@),
    decreases s.len(),
{
    let su = s.update(i, p);
    if i == s.len() - 1 {
        assert(su.drop_last() =~= s.drop_last());
        assert(su.last() == p);
    } else {
        assert(su.last() == s.last());
        assert(su.drop_last() =~= s.drop_last().update(i, p));
        assert(s.drop_last()[i] == s[i]);
        lemma_map_of_update(s.drop_last(), i, p);
        assert(s[i].0@ != s[s.len() - 1].0@);
    }
}

/// The escrow store.
///
/// Backed by an append-only slot list with pairwise distinct commitments;
/// its view is the finite map from commitment bytes to entry values.
pub struct EscrowStore {
    slots: Vec<(Commitment, EscrowEntry)>,
}

impl View for EscrowStore {
    type V = Map<Seq<u8>, EntryView>;

    closed spec fn view(&self) -> Map<Seq<u8>, EntryView> {
        map_of(self.slots@)
    }
}

impl EscrowStore {
    /// The slot list never repeats a commitment.
    pub closed spec fn wf(&self) -> bool {
        keys_unique(self.slots@)
    }

    /// Creates an empty store.
    pub fn new() -> (r: EscrowStore)
        ensures
            r.wf(),
            r@ == Map::<Seq<u8>, EntryView>::empty(),
    {
        EscrowStore { slots: Vec::new() }
    }

    /// The index of the slot carrying `c`, if any.
    fn find_index(&self, c: &Commitment) -> (r: Option<usize>)
        ensures
            match r {
                Some(i) => i < self.slots@.len() && self.slots@[i as int].0@ == c@,
                None => forall|j: int| 0 <= j < self.slots@.len() ==> self.slots@[j].0@ != c@,
            },
    {
        let mut k: usize = 0;
        while k < self.slots.len()
            invariant
                k <= self.slots@.len(),
                forall|j: int| 0 <= j < k ==> self.slots@[j].0@ != c@,
            decreases self.slots@.len() - k,
        {
            if self.slots[k].0 == *c {
                return Some(k);
            }
            k = k + 1;
        }
        None
    }

    /// Looks an entry up by its commitment.
    pub fn get(&self, c: &Commitment) -> (r: Option<EscrowEntry>)
        requires
            self.wf(),
        ensures
            match r {
                Some(e) => self@.contains_key(c@) && e@ == self@[c@],
                None => !self@.contains_key(c@),
            },
    {
        proof {
            lemma_map_of_contains(self.slots@, c@);
        }
        match self.find_index(c) {
            Some(i) => {
                proof {
                    lemma_map_of_index(self.slots@, i as int);
                }
                Some(self.slots[i].1.clone())
            },
            None => None,
        }
    }

    /// Creates an entry under `c` unless one already exists.
    ///
    /// This is the double-deposit guard: when two deposits race on the
    /// same commitment, the first one wins and the second one fails with
    /// `DuplicateCommitment`, leaving the first entry untouched.
    pub fn create_if_absent(&mut self, c: Commitment, e: EscrowEntry) -> (r: Result<(), Error>)
        requires
            old(self).wf(),
        ensures
            final(self).wf(),
            match r {
                Ok(()) => !old(self)@.contains_key(c@) && final(self)@ == old(self)@.insert(c@, e@),
                Err(err) => err == Error::DuplicateCommitment && old(self)@.contains_key(c@)
                    && final(self)@ == old(self)@,
            },
    {
        proof {
            lemma_map_of_contains(self.slots@, c@);
        }
        match self.find_index(&c) {
            Some(_) => Err(Error::DuplicateCommitment),
            None => {
                let ghost s0 = self.slots@;
                let ghost cv = c@;
                let ghost ev = e@;
                self.slots.push((c, e));
                proof {
                    assert(self.slots@.drop_last() =~= s0);
                    assert(self.slots@.last().0@ == cv && self.slots@.last().1@ == ev);
                    assert(map_of(self.slots@) == map_of(s0).insert(cv, ev));
                    assert forall|x: int, y: int| 0 <= x < y < self.slots@.len() implies
                        self.slots@[x].0@ != self.slots@[y].0@ by {
                        if y == self.slots@.len() - 1 {
                            assert(self.slots@[x] == s0[x]);
                            assert(s0[x].0@ != cv);
                        } else {
                            assert(self.slots@[x] == s0[x] && self.slots@[y] == s0[y]);
                            assert(s0[x].0@ != s0[y].0@);
                        }
                    }
                    assert(keys_unique(self.slots@));
                }
                Ok(())
            },
        }
    }

    /// Overwrites the entry under an existing key.
    pub fn update(&mut self, c: &Commitment, e: EscrowEntry)
        requires
            old(self).wf(),
            old(self)@.contains_key(c@),
        ensures
            final(self).wf(),
            final(self)@ == old(self)@.insert(c@, e@),
    {
        proof {
            lemma_map_of_contains(self.slots@, c@);
        }
        match self.find_index(c) {
            Some(i) => {
                let ghost s0 = self.slots@;
                let key = self.slots[i].0.clone();
                let _removed = self.slots.remove(i);
                let slot = (key, e);
                let ghost p = slot;
                self.slots.insert(i, slot);
                proof {
                    assert(self.slots@ =~= s0.update(i as int, p));
                    assert(p.0@ == c@);
                    lemma_map_of_update(s0, i as int, p);
                    assert forall|x: int, y: int| 0 <= x < y < self.slots@.len() implies
                        self.slots@[x].0@ != self.slots@[y].0@ by {
                        assert(s0[x].0@ != s0[y].0@);
                        assert(self.slots@[x].0@ == s0[x].0@ && self.slots@[y].0@ == s0[y].0@);
                    }
                    assert(keys_unique(self.slots@));
                }
            },
            None => {
                proof {
                    assert(false);
                }
            },
        }
    }
}

} // verus!
