use seen_set::SeenSet;
use std::collections::hash_map::DefaultHasher;
use std::hash::BuildHasher;
use std::hash::BuildHasherDefault;
use std::hash::RandomState;

fn long_strings(len: usize) -> Vec<String> {
    (0..1000).map(|i| format!("{}{}", "1".repeat(len), i)).collect()
}

fn sorted(mut digests: Vec<u64>) -> Vec<u64> {
    digests.sort_unstable();
    digests
}

#[test]
fn test_seen_set() {
    // Numbers only make for a short test: an ordinary set serves them better.
    let mut seen = SeenSet::new();
    assert!(seen.insert(&1));
    assert!(!seen.insert(&1));
    assert!(seen.insert(&2));
    assert!(!seen.insert(&2));
    assert!(seen.contains(&2));
    assert!(!seen.contains(&3));
}

#[test]
fn fresh_set_contains_nothing() {
    let mut by_new: SeenSet<str> = SeenSet::new();
    let mut by_default: SeenSet<str> = SeenSet::default();
    let mut unsized_hint: SeenSet<str> = SeenSet::with_capacity(0);
    let mut sized_hint: SeenSet<str> = SeenSet::with_capacity(64);
    for value in ["", "a", "some/path/to/a/file"] {
        assert!(!by_new.contains(value));
        assert!(!by_default.contains(value));
        assert!(!unsized_hint.contains(value));
        assert!(!sized_hint.contains(value));
    }
    assert_eq!(by_new.digests(), Vec::<u64>::new());
    assert_eq!(sized_hint.digests(), Vec::<u64>::new());
}

#[test]
fn contains_does_not_record() {
    let mut seen: SeenSet<str> = SeenSet::new();
    assert!(!seen.contains("a"));
    assert!(!seen.contains("a"));
    assert!(seen.insert("a"));
    assert!(seen.contains("a"));
    assert_eq!(seen.digests().len(), 1);
}

#[test]
fn distinct_values_are_each_new_once() {
    let values = ["alpha", "beta", "gamma", "delta", "epsilon"];
    let mut seen: SeenSet<str> = SeenSet::new();
    for (k, value) in values.iter().enumerate() {
        assert!(!seen.contains(value));
        assert!(seen.insert(value));
        assert!(seen.contains(value));
        for earlier in &values[..=k] {
            assert!(!seen.insert(earlier));
        }
        assert_eq!(seen.digests().len(), k + 1);
    }
}

#[test]
fn thousand_long_strings() {
    let strings = long_strings(1000);
    let mut seen = SeenSet::with_capacity(strings.len());
    for string in &strings {
        assert!(seen.insert(string));
    }
    for string in &strings {
        assert!(!seen.insert(string));
    }
    for string in &strings {
        assert!(seen.contains(string));
    }
    assert_eq!(seen.digests().len(), 1000);
}

#[test]
fn thousand_long_strings_without_a_hint() {
    let strings = long_strings(100);
    let mut seen = SeenSet::new();
    for string in &strings {
        assert!(seen.insert(string));
    }
    for string in &strings {
        assert!(!seen.insert(string));
    }
    for string in &strings {
        assert!(seen.contains(string));
    }
    assert!(!seen.contains(&String::from("never inserted")));
    assert_eq!(seen.digests().len(), 1000);
}

#[test]
fn digests_are_those_of_the_hasher() {
    let hasher = BuildHasherDefault::<DefaultHasher>::default();
    let mut seen: SeenSet<str, BuildHasherDefault<DefaultHasher>> =
        SeenSet::with_capacity_and_hasher(4, hasher.clone());
    assert!(seen.insert("left"));
    assert!(seen.insert("right"));
    assert!(!seen.insert("left"));
    let expected = sorted(vec![hasher.hash_one("left"), hasher.hash_one("right")]);
    assert_eq!(sorted(seen.digests()), expected);
    assert!(seen.contains_digest(hasher.hash_one("left")));
    assert!(!seen.contains_digest(hasher.hash_one("middle")));
    assert_eq!(seen_set::hasher::hash_value(&hasher, "left"), hasher.hash_one("left"));
}

#[test]
fn same_hasher_same_operations_same_digests() {
    let mut first: SeenSet<str, BuildHasherDefault<DefaultHasher>> =
        SeenSet::with_capacity_and_hasher(0, BuildHasherDefault::default());
    let mut second: SeenSet<str, BuildHasherDefault<DefaultHasher>> =
        SeenSet::with_capacity_and_hasher(16, BuildHasherDefault::default());
    for value in ["a", "b", "a", "c", "b", "d"] {
        assert_eq!(first.insert(value), second.insert(value));
        assert_eq!(first.contains("c"), second.contains("c"));
    }
    assert_eq!(sorted(first.digests()), sorted(second.digests()));
    assert_eq!(first.digests().len(), 4);
}

#[test]
fn one_random_hasher_is_consistent_with_itself() {
    let hasher = RandomState::new();
    let mut seen: SeenSet<[u8], RandomState> = SeenSet::with_capacity_and_hasher(2, hasher.clone());
    assert!(seen.insert(&[1u8, 2, 3][..]));
    assert!(!seen.insert(&[1u8, 2, 3][..]));
    assert!(seen.contains_digest(hasher.hash_one(&[1u8, 2, 3][..])));
}

#[test]
fn digest_level_scenario() {
    let mut seen: SeenSet<u8> = SeenSet::new();
    assert!(!seen.contains_digest(1));
    assert!(seen.insert_digest(1));
    assert!(!seen.insert_digest(1));
    assert!(seen.insert_digest(2));
    assert!(!seen.insert_digest(2));
    assert!(seen.contains_digest(2));
    assert!(!seen.contains_digest(3));
    assert_eq!(sorted(seen.digests()), vec![1, 2]);
}

#[test]
fn extreme_digests() {
    let mut seen: SeenSet<u8> = SeenSet::new();
    assert!(seen.insert_digest(0));
    assert!(seen.insert_digest(u64::MAX));
    assert!(!seen.insert_digest(0));
    assert!(!seen.insert_digest(u64::MAX));
    assert!(!seen.contains_digest(1));
    assert!(!seen.contains_digest(u64::MAX - 1));
    assert_eq!(sorted(seen.digests()), vec![0, u64::MAX]);
}

#[test]
fn digests_survive_regrowth() {
    // No room is asked for, so the table regrows many times on the way.
    let mut seen: SeenSet<u8> = SeenSet::new();
    for i in 0..5000u64 {
        assert!(seen.insert_digest(i.wrapping_mul(0x9E37_79B9_7F4A_7C15)));
        assert!(seen.insert_digest(i << 40 | 1));
    }
    for i in 0..5000u64 {
        assert!(!seen.insert_digest(i.wrapping_mul(0x9E37_79B9_7F4A_7C15)));
        assert!(seen.contains_digest(i << 40 | 1));
    }
    assert!(!seen.contains_digest(5000 << 40 | 1));
    assert_eq!(seen.digests().len(), 10000);
}

#[test]
fn digests_come_out_once_each() {
    let mut seen: SeenSet<u8> = SeenSet::with_capacity(3);
    for digest in [7u64, 3, 7, 9, 3, 3] {
        seen.insert_digest(digest);
    }
    assert_eq!(sorted(seen.digests()), vec![3, 7, 9]);
}

#[test]
fn clone_sees_the_same_and_stands_alone() {
    let mut seen: SeenSet<str> = SeenSet::new();
    assert!(seen.insert("kept"));
    let mut copy = seen.clone();
    assert!(copy.contains("kept"));
    assert!(!copy.insert("kept"));
    assert_eq!(sorted(copy.digests()), sorted(seen.digests()));
    assert!(copy.insert("only in the copy"));
    assert!(!seen.contains("only in the copy"));
    assert!(seen.insert("only in the first"));
    assert!(!copy.contains("only in the first"));
    assert_eq!(seen.digests().len(), 2);
    assert_eq!(copy.digests().len(), 2);
}

#[test]
fn default_takes_the_default_hasher() {
    let mut seen: SeenSet<str, BuildHasherDefault<DefaultHasher>> = SeenSet::default();
    let hasher = BuildHasherDefault::<DefaultHasher>::default();
    assert!(!seen.contains("x"));
    assert!(seen.insert("x"));
    assert_eq!(seen.digests(), vec![hasher.hash_one("x")]);
}

#[test]
fn a_digest_is_its_own_bucket_hash() {
    assert_eq!(seen_set::table::bucket_hash(&0), 0);
    assert_eq!(seen_set::table::bucket_hash(&42), 42);
    assert_eq!(seen_set::table::bucket_hash(&u64::MAX), u64::MAX);
}

#[test]
fn digests_are_compared_by_equality() {
    assert!(seen_set::table::same_digest(&0, &0));
    assert!(seen_set::table::same_digest(&u64::MAX, &u64::MAX));
    assert!(!seen_set::table::same_digest(&1, &2));
    assert!(!seen_set::table::same_digest(&(1 << 63), &0));
}

#[test]
fn digests_that_share_low_bits_are_told_apart() {
    let mut seen: SeenSet<u8> = SeenSet::with_capacity(4);
    assert!(seen.insert_digest(3));
    assert!(seen.insert_digest(3 + (1 << 32)));
    assert!(seen.insert_digest(3 + (1 << 63)));
    assert!(!seen.insert_digest(3));
    assert!(seen.contains_digest(3 + (1 << 32)));
    assert!(!seen.contains_digest(3 + (1 << 33)));
    assert_eq!(seen.digests().len(), 3);
}
