//! The digest registry's storage: an open-addressing table of 64-bit digests.
//!
//! The table is `hashbrown::HashTable<u64>`. Verus cannot look inside it, so
//! this module is the whole trusted boundary towards it: one opaque struct,
//! one name for what the table holds, and one small function per table
//! operation. Everything above this module is verified against the contracts
//! stated here.
//!
//! A digest is already a 64-bit hash, so it serves as its own bucket hash: the
//! table is always probed, filled and regrown under `bucket_hash`. The hash
//! that a probe or an insertion uses is computed by the verified caller and
//! handed in; stored digests are compared by the verified `same_digest`.

use vstd::prelude::*;

verus! {

/// An open-addressing table that stores 64-bit digests and nothing else.
///
/// Trusted: the field is a `hashbrown::HashTable<u64>`, which Verus does not
/// read. The table is reached only through the functions of this module,
/// which keep every digest in it once, stored under its bucket hash: that is
/// what makes a probe for a digest find it.
#[verifier::external_body]
pub struct DigestTable {
    table: hashbrown::HashTable<u64>,
}

/// The digests that a table holds.
pub uninterp spec fn table_digests(table: DigestTable) -> Set<u64>;

/// The room that a table was made with: the number of digests that its
/// storage was sized for when it was made. hashbrown sizes the storage so
/// that the table holds at least that many digests without regrowing, and the
/// storage only ever grows, so that stays so for as long as the table lives.
pub uninterp spec fn table_room(table: DigestTable) -> nat;

/// The largest number of digests for which room may be asked, and below which
/// a table can always take one more: with it, the size in bytes of the
/// table's storage stays under `isize::MAX`.
pub open spec fn digest_limit() -> nat {
    (usize::MAX / 64) as nat
}

/// The bucket hash of a digest: the digest itself.
pub open spec fn bucket_hash_of(digest: u64) -> u64 {
    digest
}

/// Computes the hash under which a digest is stored in the table.
pub fn bucket_hash(digest: &u64) -> (hash: u64)
    ensures
        hash == bucket_hash_of(*digest),
{
    *digest
}

/// Tells whether a stored digest is the one looked for: two digests that
/// share a bucket are told apart by integer equality.
pub fn same_digest(stored: &u64, digest: &u64) -> (same: bool)
    ensures
        same == (*stored == *digest),
{
    *stored == *digest
}

impl DigestTable {
    /// Trusted: `HashTable::default()`. The new table holds nothing and was
    /// made with room for nothing: it does not allocate.
    #[verifier::external_body]
    pub(crate) fn empty() -> (table: DigestTable)
        ensures
            table_digests(table) == Set::<u64>::empty(),
            table_room(table) == 0,
    {
        DigestTable { table: Default::default() }
    }

    /// Trusted: `HashTable::with_capacity(capacity)`. The new table holds
    /// nothing and was made with room for `capacity` digests: it "will be able
    /// to hold at least `capacity` elements without reallocating". hashbrown
    /// panics when the storage for `capacity` elements
    /// would exceed `isize::MAX` bytes, which `requires` rules out; like every
    /// allocation, the call ends the process when the memory cannot be had.
    #[verifier::external_body]
    pub(crate) fn with_capacity(capacity: usize) -> (table: DigestTable)
        requires
            capacity <= digest_limit(),
        ensures
            table_digests(table) == Set::<u64>::empty(),
            table_room(table) == capacity,
    {
        DigestTable { table: hashbrown::HashTable::with_capacity(capacity) }
    }

    /// Trusted: `HashTable::find(hash, eq)`, reduced to whether it found an
    /// element. Probed with the digest's bucket hash, which `requires` asks
    /// for, and with `same_digest` as the comparison, it finds the digest
    /// exactly when the table holds it.
    #[verifier::external_body]
    pub(crate) fn find(&self, hash: u64, digest: u64) -> (found: bool)
        requires
            hash == bucket_hash_of(digest),
        ensures
            found == table_digests(*self).contains(digest),
    {
        self.table.find(hash, |stored| same_digest(stored, &digest)).is_some()
    }

    /// Trusted: `HashTable::entry(hash, eq, hasher)`, reduced to whether the
    /// entry is occupied. It is probed with the digest's bucket hash, which
    /// `requires` asks for, and with `same_digest` as the comparison. The
    /// entry is dropped unused, so the table holds what it held; `entry` may
    /// regrow the table to make room for one more element, placing what is
    /// stored under `bucket_hash` again, and panics only if that storage
    /// would exceed `isize::MAX` bytes, which `requires` rules out.
    #[verifier::external_body]
    pub(crate) fn probe(&mut self, hash: u64, digest: u64) -> (occupied: bool)
        requires
            hash == bucket_hash_of(digest),
            table_digests(*old(self)).len() < digest_limit(),
        ensures
            occupied == table_digests(*old(self)).contains(digest),
            table_digests(*final(self)) == table_digests(*old(self)),
            table_room(*final(self)) == table_room(*old(self)),
    {
        match self.table.entry(hash, |stored| same_digest(stored, &digest), bucket_hash) {
            hashbrown::hash_table::Entry::Occupied(_) => true,
            hashbrown::hash_table::Entry::Vacant(_) => false,
        }
    }

    /// Trusted: `HashTable::insert_unique(hash, value, hasher)`. It stores the
    /// digest under the hash handed in, without looking for an equal element:
    /// `requires` asks that the hash is the digest's bucket hash and that the
    /// table does not hold the digest yet; the size bound rules out the one
    /// panic, as for `probe`.
    #[verifier::external_body]
    pub(crate) fn insert_unique(&mut self, hash: u64, digest: u64)
        requires
            hash == bucket_hash_of(digest),
            !table_digests(*old(self)).contains(digest),
            table_digests(*old(self)).len() < digest_limit(),
        ensures
            table_digests(*final(self)) == table_digests(*old(self)).insert(digest),
            table_room(*final(self)) == table_room(*old(self)),
    {
        self.table.insert_unique(hash, digest, bucket_hash);
    }

    /// Trusted: `HashTable::clone()`. The copy holds the same digests, in
    /// storage of the same size, so it has the room that this table was made
    /// with.
    #[verifier::external_body]
    pub(crate) fn duplicate(&self) -> (copy: DigestTable)
        ensures
            table_digests(copy) == table_digests(*self),
            table_room(copy) == table_room(*self),
    {
        DigestTable { table: self.table.clone() }
    }

    /// Trusted: `HashTable::iter()`, collected. Every stored digest comes out
    /// once; the order is the table's own and nothing is said of it.
    #[verifier::external_body]
    pub(crate) fn to_vec(&self) -> (digests: Vec<u64>)
        ensures
            digests@.no_duplicates(),
            digests@.to_set() == table_digests(*self),
    {
        self.table.iter().copied().collect()
    }
}

} // verus!
