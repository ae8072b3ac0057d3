//! The seen-set: typed `insert` and `contains` over a registry of digests.

use crate::hasher::hash_value;
use crate::hasher::hashes_to;
use crate::hasher::is_default_state;
use crate::table::bucket_hash;
use crate::table::digest_limit;
use crate::table::table_digests;
use crate::table::table_room;
use crate::table::DigestTable;
use std::hash::BuildHasher;
use std::hash::Hash;
use std::hash::RandomState;
use std::marker::PhantomData;
use vstd::prelude::*;

verus! {

/// A set that stores only the digests of the values it has seen.
///
/// This is useful when all that is asked is whether a value came by before,
/// and cloning the value to remember it would cost too much.
///
/// Two values with the same digest are taken for one. For values such as
/// small numbers an ordinary set is both exact and faster.
pub struct SeenSet<T: Hash + ?Sized, TValueHasher = RandomState> {
    _kind: PhantomData<T>,
    value_hasher: TValueHasher,
    checked_table: DigestTable,
}

impl<T: Hash + ?Sized, TValueHasher> View for SeenSet<T, TValueHasher> {
    type V = Set<u64>;

    /// The digests seen so far.
    closed spec fn view(&self) -> Set<u64> {
        table_digests(self.checked_table)
    }
}

impl<T: Hash + ?Sized, TValueHasher> SeenSet<T, TValueHasher> {
    /// The hashing strategy that turns values into digests.
    pub closed spec fn hasher(&self) -> TValueHasher {
        self.value_hasher
    }

    /// The room that the set was made with: the number of digests that its
    /// registry was sized for, and holds without regrowing.
    pub closed spec fn room(&self) -> nat {
        table_room(self.checked_table)
    }

    /// Makes an empty set with room for `capacity` digests and the given
    /// hashing strategy.
    pub fn with_capacity_and_hasher(capacity: usize, value_hasher: TValueHasher) -> (set: Self)
        requires
            capacity <= digest_limit(),
        ensures
            set@ == Set::<u64>::empty(),
            set.room() == capacity,
            set.hasher() == value_hasher,
    {
        Self {
            _kind: PhantomData,
            value_hasher,
            checked_table: DigestTable::with_capacity(capacity),
        }
    }

    /// Whether `digest` has been seen. The set stays as it is.
    pub fn contains_digest(&self, digest: u64) -> (found: bool)
        ensures
            found == self@.contains(digest),
    {
        self.checked_table.find(bucket_hash(&digest), digest)
    }

    /// Records `digest` and tells whether it is seen for the first time.
    pub fn insert_digest(&mut self, digest: u64) -> (newly_seen: bool)
        requires
            old(self)@.len() < digest_limit(),
        ensures
            newly_seen == !old(self)@.contains(digest),
            final(self)@ == old(self)@.insert(digest),
            final(self).room() == old(self).room(),
            final(self).hasher() == old(self).hasher(),
    {
        let hash = bucket_hash(&digest);
        if self.checked_table.probe(hash, digest) {
            assert(self@.insert(digest) =~= self@);
            false
        } else {
            self.checked_table.insert_unique(hash, digest);
            true
        }
    }

    /// The digests seen so far, each once, in no particular order.
    pub fn digests(&self) -> (digests: Vec<u64>)
        ensures
            digests@.no_duplicates(),
            digests@.to_set() == self@,
    {
        self.checked_table.to_vec()
    }
}

impl<T: Hash + ?Sized, TValueHasher: BuildHasher> SeenSet<T, TValueHasher> {
    /// What one `contains(value)` is to a set: the call answers whether the
    /// set holds a digest that its hasher gives for the value, and `after`,
    /// the set once the call is over, is the set that it was.
    pub open spec fn queried(self, after: Self, value: &T, found: bool) -> bool {
        &&& exists|digest: u64| #[trigger]
            hashes_to(self.hasher(), value, digest) && found == self@.contains(digest)
        &&& after@ == self@
        &&& after.room() == self.room()
        &&& after.hasher() == self.hasher()
    }

    /// What one `insert(value)` makes of a set: `after`, the set once the call
    /// is over, holds one digest more, a digest that the hasher gives for the
    /// value, and the call answers whether the set did not hold that digest
    /// before. Room and hasher are kept.
    pub open spec fn inserted(self, after: Self, value: &T, newly_seen: bool) -> bool {
        &&& exists|digest: u64| #[trigger]
            hashes_to(self.hasher(), value, digest) && newly_seen == !self@.contains(digest)
                && after@ == self@.insert(digest)
        &&& after.room() == self.room()
        &&& after.hasher() == self.hasher()
    }

    /// Checks whether the set has seen the value: whether it holds the digest
    /// that the hasher gives for it. The set stays as it is.
    pub fn contains(&mut self, value: &T) -> (found: bool)
        ensures
            old(self).queried(*final(self), value, found),
    {
        let hash = self.get_hash(value);
        self.contains_digest(hash)
    }

    /// Records the digest of the value, and returns `true` if that digest was
    /// never seen before, `false` otherwise.
    pub fn insert(&mut self, value: &T) -> (newly_seen: bool)
        requires
            old(self)@.len() < digest_limit(),
        ensures
            old(self).inserted(*final(self), value, newly_seen),
    {
        let hash = self.get_hash(value);
        self.insert_digest(hash)
    }

    fn get_hash(&self, value: &T) -> (hash: u64)
        ensures
            hashes_to(self.hasher(), value, hash),
    {
        hash_value(&self.value_hasher, value)
    }
}

impl<T: Hash + ?Sized> SeenSet<T, RandomState> {
    /// Makes an empty set with a randomly seeded hasher, the default state of
    /// `RandomState`. No room is set aside: the registry takes storage when
    /// the first digest comes.
    pub fn new() -> (set: Self)
        ensures
            set@ == Set::<u64>::empty(),
            set.room() == 0,
            is_default_state(set.hasher()),
    {
        Self::default()
    }

    /// Makes an empty set with room for `capacity` digests and a randomly
    /// seeded hasher, the default state of `RandomState`.
    pub fn with_capacity(capacity: usize) -> (set: Self)
        requires
            capacity <= digest_limit(),
        ensures
            set@ == Set::<u64>::empty(),
            set.room() == capacity,
            is_default_state(set.hasher()),
    {
        Self::with_capacity_and_hasher(capacity, Default::default())
    }
}

impl<T: Hash + ?Sized, TValueHasher: Default> Default for SeenSet<T, TValueHasher> {
    /// Makes an empty set with the default state of the hasher, and no room
    /// set aside.
    fn default() -> (set: Self)
        ensures
            set@ == Set::<u64>::empty(),
            set.room() == 0,
            is_default_state(set.hasher()),
    {
        Self {
            _kind: PhantomData,
            value_hasher: Default::default(),
            checked_table: DigestTable::empty(),
        }
    }
}

impl<T: Hash + ?Sized, TValueHasher: Clone> Clone for SeenSet<T, TValueHasher> {
    /// Copies the set: the copy has seen the same digests, and its hasher is a
    /// clone of this one.
    fn clone(&self) -> (copy: Self)
        ensures
            copy@ == self@,
            copy.room() == self.room(),
            cloned(self.hasher(), copy.hasher()),
    {
        Self {
            _kind: PhantomData,
            value_hasher: self.value_hasher.clone(),
            checked_table: self.checked_table.duplicate(),
        }
    }
}

} // verus!
