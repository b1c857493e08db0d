//! A bounded experience-replay store with randomized eviction.
//!
//! The store keeps at most `capacity` records. Until it is full a new
//! record is appended; once full, a uniformly random existing slot is
//! overwritten — a reservoir-like replacement, deliberately not a ring
//! buffer, so that old and new experience stay mixed. Sampling returns a
//! uniformly random live record and removes nothing.
use vstd::prelude::*;

use crate::rng::random_below;

verus! {

/// One recorded transition: the state seen, the flat action taken, the
/// state reached, and the reward credited to the acting player.
#[derive(Clone, Copy, Debug, PartialEq, Eq, Structural)]
pub struct Experience<S, A, V> {
    pub current_state: S,
    pub action: A,
    pub next_state: S,
    pub value: V,
}

/// The bounded store of experiences. `memory` never outgrows
/// `capacity`, which is fixed at construction.
pub struct Memory<S, A, V> {
    memory: Vec<Experience<S, A, V>>,
    capacity: usize,
}

impl<S, A, V> Memory<S, A, V> {
    /// The records currently held, oldest first.
    pub closed spec fn entries(&self) -> Seq<Experience<S, A, V>> {
        self.memory@
    }

    /// The fixed bound on how many records are held at once.
    pub closed spec fn spec_capacity(&self) -> int {
        self.capacity as int
    }

    /// Well-formed: a positive bound that the store respects.
    pub closed spec fn wf(&self) -> bool {
        self.memory@.len() <= self.capacity && self.capacity >= 1
    }

    /// An empty store with the reference capacity.
    pub fn new() -> (m: Self)
        ensures
            m.wf(),
            m.entries() =~= Seq::<Experience<S, A, V>>::empty(),
            m.spec_capacity() == 50000,
    {
        Self { memory: Vec::new(), capacity: 50000 }
    }

    /// How many records are held right now.
    pub fn len(&self) -> (n: usize)
        ensures
            n == self.entries().len(),
    {
        self.memory.len()
    }

    /// The fixed bound on how many records are held at once.
    pub fn capacity(&self) -> (n: usize)
        ensures
            n == self.spec_capacity(),
    {
        self.capacity
    }

    /// Records one experience. Under capacity it is appended; at
    /// capacity it replaces a uniformly random existing record, so the
    /// store never outgrows its bound and holds nothing that was not
    /// put into it.
    pub fn put(&mut self, item: Experience<S, A, V>)
        requires
            old(self).wf(),
        ensures
            final(self).wf(),
            final(self).spec_capacity() == old(self).spec_capacity(),
            final(self).entries().len() <= final(self).spec_capacity(),
            old(self).entries().len() < old(self).spec_capacity() ==> final(self).entries()
                =~= old(self).entries().push(item),
            old(self).entries().len() == old(self).spec_capacity() ==> exists|i: int|
                0 <= i < old(self).entries().len() && final(self).entries() =~= old(
                    self,
                ).entries().update(i, item),
            forall|i: int|
                0 <= i < final(self).entries().len() ==> #[trigger] final(self).entries()[i]
                    == item || old(self).entries().contains(final(self).entries()[i]),
    {
        if self.memory.len() < self.capacity {
            self.memory.push(item);
            proof {
                assert forall|i: int| 0 <= i < self.memory@.len() implies #[trigger] self.memory@[i]
                    == item || old(self).memory@.contains(self.memory@[i]) by {
                    if i < self.memory@.len() - 1 {
                        assert(old(self).memory@[i] == self.memory@[i]);
                    }
                }
            }
        } else {
            let index = random_below(self.capacity);
            self.memory.set(index, item);
            proof {
                assert forall|i: int| 0 <= i < self.memory@.len() implies #[trigger] self.memory@[i]
                    == item || old(self).memory@.contains(self.memory@[i]) by {
                    if i != index {
                        assert(old(self).memory@[i] == self.memory@[i]);
                    }
                }
            }
        }
    }

    /// Returns a uniformly random held record by reference. Calling it
    /// on an empty store is a contract violation, ruled out here.
    pub fn sample(&self) -> (e: &Experience<S, A, V>)
        requires
            self.entries().len() > 0,
        ensures
            self.entries().contains(*e),
    {
        let index = random_below(self.memory.len());
        let e = &self.memory[index];
        proof {
            assert(self.memory@[index as int] == *e);
        }
        e
    }
}

} // verus!
