//! What holds of a seen-set, call by call and over whole runs of insertions.
//!
//! The first laws speak of single calls, through what `insert` and `contains`
//! ensure: `inserted` and `queried` relate a set before a call to the set
//! after it and to the call's answer. The later ones speak of runs. A run is
//! told by the digests that the insertions recorded, in order: `insert_digest`
//! turns a registry `r` into `r.insert(d)` and answers `!r.contains(d)`, and
//! the laws follow that step along a run. Where a law speaks of values, it
//! goes through the digests that the hasher gives for them, and says so when
//! it needs the hasher to be consistent.

use crate::hasher::hashes_consistently;
use crate::hasher::hashes_to;
use crate::seen::SeenSet;
use std::hash::BuildHasher;
use std::hash::Hash;
use vstd::prelude::*;

verus! {

/// A set that has seen nothing, however it was made and whatever room it was
/// given, answers `false` to `contains` for every value, and has still seen
/// nothing afterwards.
pub proof fn lemma_fresh_set_contains_nothing<T: Hash + ?Sized, H: BuildHasher>(
    fresh: SeenSet<T, H>,
    after: SeenSet<T, H>,
    value: &T,
    found: bool,
)
    requires
        fresh@ == Set::<u64>::empty(),
        fresh.queried(after, value, found),
    ensures
        !found,
        after@ == Set::<u64>::empty(),
{
}

/// A value for which the hasher gives no digest that the set holds (it was
/// never inserted, and collides with nothing that was) is answered `false` by
/// `contains` and `true` by `insert`.
pub proof fn lemma_unseen_value<T: Hash + ?Sized, H: BuildHasher>(
    set: SeenSet<T, H>,
    after_query: SeenSet<T, H>,
    after_insert: SeenSet<T, H>,
    value: &T,
    found: bool,
    newly_seen: bool,
)
    requires
        forall|digest: u64| #[trigger] hashes_to(set.hasher(), value, digest) ==> !set@.contains(digest),
        set.queried(after_query, value, found),
        set.inserted(after_insert, value, newly_seen),
    ensures
        !found,
        newly_seen,
{
}

/// Right after `insert(value)`, whatever it answered, `contains(value)`
/// answers `true`, if the hasher is consistent on the value.
pub proof fn lemma_inserted_value_is_contained<T: Hash + ?Sized, H: BuildHasher>(
    before: SeenSet<T, H>,
    between: SeenSet<T, H>,
    after: SeenSet<T, H>,
    value: &T,
    newly_seen: bool,
    found: bool,
)
    requires
        hashes_consistently(before.hasher(), value),
        before.inserted(between, value, newly_seen),
        between.queried(after, value, found),
    ensures
        found,
{
}

/// Once a value was inserted, every later `insert` of it answers `false`, if
/// the hasher is consistent on the value: `later` is the set at any later
/// time, with the same hasher and with all the digests that it held right
/// after the first insertion, as every call keeps them.
pub proof fn lemma_inserted_value_is_not_new_again<T: Hash + ?Sized, H: BuildHasher>(
    before: SeenSet<T, H>,
    between: SeenSet<T, H>,
    later: SeenSet<T, H>,
    after: SeenSet<T, H>,
    value: &T,
    first: bool,
    again: bool,
)
    requires
        hashes_consistently(before.hasher(), value),
        before.inserted(between, value, first),
        later.hasher() == before.hasher(),
        between@.subset_of(later@),
        later.inserted(after, value, again),
    ensures
        !again,
{
}

/// No call makes a set forget: after `insert` and after `contains` the set
/// holds every digest that it held before, with the hasher that it had.
pub proof fn lemma_calls_keep_what_was_seen<T: Hash + ?Sized, H: BuildHasher>(
    before: SeenSet<T, H>,
    after: SeenSet<T, H>,
    value: &T,
    answer: bool,
)
    requires
        before.inserted(after, value, answer) || before.queried(after, value, answer),
    ensures
        before@.subset_of(after@),
        after.hasher() == before.hasher(),
        after.room() == before.room(),
{
}

/// Two sets with the same hasher that have seen the same digests answer the
/// same call alike and have seen the same digests afterwards, if the hasher
/// is consistent on the value: call by call, they stay alike.
pub proof fn lemma_same_hasher_same_calls<T: Hash + ?Sized, H: BuildHasher>(
    one: SeenSet<T, H>,
    other: SeenSet<T, H>,
    one_after: SeenSet<T, H>,
    other_after: SeenSet<T, H>,
    value: &T,
    one_answer: bool,
    other_answer: bool,
)
    requires
        hashes_consistently(one.hasher(), value),
        one.hasher() == other.hasher(),
        one@ == other@,
        (one.inserted(one_after, value, one_answer) && other.inserted(
            other_after,
            value,
            other_answer,
        )) || (one.queried(one_after, value, one_answer) && other.queried(
            other_after,
            value,
            other_answer,
        )),
    ensures
        one_answer == other_answer,
        one_after@ == other_after@,
        one_after.hasher() == other_after.hasher(),
{
}

/// The registry that holds `start` and every digest of `digests`: what a
/// registry `start` has become once `digests` were inserted, in any order.
pub open spec fn after_inserting(start: Set<u64>, digests: Seq<u64>) -> Set<u64> {
    start.union(digests.to_set())
}

/// Whether `digests` are digests that `hasher` gives for `values`, one by one.
pub open spec fn digests_of<T: Hash + ?Sized, H: BuildHasher>(
    hasher: H,
    values: Seq<&T>,
    digests: Seq<u64>,
) -> bool {
    &&& digests.len() == values.len()
    &&& forall|i: int|
        0 <= i < values.len() ==> #[trigger] hashes_to(hasher, values[i], digests[i])
}

/// A registry into which nothing was inserted is the registry it was; a fresh
/// one has seen no digest at all.
pub proof fn lemma_nothing_inserted(start: Set<u64>, digest: u64)
    ensures
        after_inserting(start, Seq::<u64>::empty()) == start,
        !after_inserting(Set::<u64>::empty(), Seq::<u64>::empty()).contains(digest),
{
    assert(Seq::<u64>::empty().to_set() =~= Set::<u64>::empty());
    assert(after_inserting(start, Seq::<u64>::empty()) =~= start);
}

/// One more insertion adds its digest to what the run before it left: a run is
/// made of the steps that `insert_digest` takes.
pub proof fn lemma_insertion_step(start: Set<u64>, digests: Seq<u64>, digest: u64)
    ensures
        after_inserting(start, digests.push(digest)) == after_inserting(start, digests).insert(
            digest,
        ),
{
    let longer = digests.push(digest);
    assert forall|d: u64| longer.to_set().contains(d) <==> digests.to_set().insert(
        digest,
    ).contains(d) by {
        if digests.to_set().contains(d) {
            let i = choose|i: int| 0 <= i < digests.len() && digests[i] == d;
            assert(longer[i] == d);
        }
        if d == digest {
            assert(longer[digests.len() as int] == d);
        }
        if longer.to_set().contains(d) {
            let i = choose|i: int| 0 <= i < longer.len() && longer[i] == d;
            if i < digests.len() {
                assert(digests[i] == d);
            }
        }
    }
    assert(longer.to_set() =~= digests.to_set().insert(digest));
    assert(after_inserting(start, longer) =~= after_inserting(start, digests).insert(digest));
}

/// A registry only grows: what it held before a run it holds after it, and
/// what it holds after a run it held before or was inserted during the run.
pub proof fn lemma_nothing_is_forgotten(start: Set<u64>, digests: Seq<u64>, digest: u64)
    ensures
        start.contains(digest) ==> after_inserting(start, digests).contains(digest),
        after_inserting(start, digests).contains(digest) ==> start.contains(digest)
            || digests.contains(digest),
{
}

/// A fresh registry never holds more digests than insertions were made, and
/// holds finitely many.
pub proof fn lemma_no_more_digests_than_insertions(digests: Seq<u64>)
    ensures
        after_inserting(Set::<u64>::empty(), digests).finite(),
        after_inserting(Set::<u64>::empty(), digests).len() <= digests.len(),
{
    digests.lemma_cardinality_of_set();
    assert(after_inserting(Set::<u64>::empty(), digests) =~= digests.to_set());
}

/// In a run of pairwise distinct digests on a fresh registry, the insertion at
/// `k` meets a registry that does not hold its digest, so it answers `true`;
/// at every later point of the run the registry holds that digest, so
/// inserting it again answers `false`.
pub proof fn lemma_new_once_then_seen(digests: Seq<u64>, k: int, later: int)
    requires
        digests.no_duplicates(),
        0 <= k < later <= digests.len(),
    ensures
        !after_inserting(Set::<u64>::empty(), digests.take(k)).contains(digests[k]),
        after_inserting(Set::<u64>::empty(), digests.take(later)).contains(digests[k]),
{
    let before = digests.take(k);
    if before.to_set().contains(digests[k]) {
        let i = choose|i: int| 0 <= i < before.len() && before[i] == digests[k];
        assert(digests[i] == digests[k]);
    }
    assert(digests.take(later)[k] == digests[k]);
}

/// The same for values: where the hasher gave pairwise distinct digests for
/// the values of a run (the values differ and none collides with another), the
/// insertion of the value at `k` answers `true`, and, if the hasher is
/// consistent on that value, whatever digest it gives for it later is held by
/// the registry at every later point of the run, so inserting the value again
/// answers `false`.
pub proof fn lemma_value_new_once_then_seen<T: Hash + ?Sized, H: BuildHasher>(
    hasher: H,
    values: Seq<&T>,
    digests: Seq<u64>,
    k: int,
    later: int,
    again: u64,
)
    requires
        digests_of(hasher, values, digests),
        digests.no_duplicates(),
        0 <= k < later <= values.len(),
        hashes_consistently(hasher, values[k]),
        hashes_to(hasher, values[k], again),
    ensures
        !after_inserting(Set::<u64>::empty(), digests.take(k)).contains(digests[k]),
        after_inserting(Set::<u64>::empty(), digests.take(later)).contains(again),
{
    lemma_new_once_then_seen(digests, k, later);
    assert(hashes_to(hasher, values[k], digests[k]));
}

/// A digest that no insertion of a run recorded is not held after the run: a
/// value that was never inserted, and that collides with none that was, is
/// not contained.
pub proof fn lemma_never_inserted_is_absent(digests: Seq<u64>, digest: u64)
    requires
        !digests.contains(digest),
    ensures
        !after_inserting(Set::<u64>::empty(), digests).contains(digest),
{
}

/// Right after a value was inserted, the registry holds whatever digest a
/// consistent hasher gives for that value, so `contains` answers `true`.
pub proof fn lemma_contained_after_insert<T: Hash + ?Sized, H: BuildHasher>(
    hasher: H,
    value: &T,
    held: Set<u64>,
    inserted: u64,
    queried: u64,
)
    requires
        hashes_consistently(hasher, value),
        hashes_to(hasher, value, inserted),
        hashes_to(hasher, value, queried),
    ensures
        held.insert(inserted).contains(queried),
{
}

/// Two runs over the same values with the same hasher leave the same digests
/// in the registry, provided the hasher is consistent on each of the values.
pub proof fn lemma_same_values_same_registry<T: Hash + ?Sized, H: BuildHasher>(
    hasher: H,
    values: Seq<&T>,
    first: Seq<u64>,
    second: Seq<u64>,
)
    requires
        digests_of(hasher, values, first),
        digests_of(hasher, values, second),
        forall|i: int| 0 <= i < values.len() ==> #[trigger] hashes_consistently(hasher, values[i]),
    ensures
        first == second,
        after_inserting(Set::<u64>::empty(), first) == after_inserting(
            Set::<u64>::empty(),
            second,
        ),
{
    assert forall|i: int| 0 <= i < first.len() implies first[i] == second[i] by {
        assert(hashes_consistently(hasher, values[i]));
        assert(hashes_to(hasher, values[i], first[i]));
        assert(hashes_to(hasher, values[i], second[i]));
    }
    assert(first =~= second);
}

} // verus!
