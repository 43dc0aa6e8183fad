//! The non-repeating enumerator: exhaustive, duplicate-free, exactly counted.

use std::collections::HashSet;

use petname::Petnames;
use rand::SeedableRng;
use rand::rngs::StdRng;

#[test]
fn enumerator_yields_every_triple_exactly_once() {
    let petnames = Petnames::new("a1 a2", "b1 b2 b3", "c1 c2");
    let mut rng = StdRng::seed_from_u64(42);
    let mut names = petnames.iter_non_repeating(&mut rng, 3);
    assert_eq!(12, names.remaining());
    let mut seen: Vec<String> = Vec::new();
    while let Some(name) = names.next_name(".") {
        seen.push(name);
    }
    assert_eq!(12, seen.len());
    let distinct: HashSet<&String> = seen.iter().collect();
    assert_eq!(12, distinct.len());
    for adverb in ["b1", "b2", "b3"] {
        for adjective in ["a1", "a2"] {
            for noun in ["c1", "c2"] {
                let combo = format!("{adverb}.{adjective}.{noun}");
                assert!(seen.contains(&combo), "missing {combo}");
            }
        }
    }
    // Exhaustion is permanent.
    assert_eq!(0, names.remaining());
    assert_eq!(None, names.next_name("."));
    assert_eq!(None, names.next_raw());
}

#[test]
fn enumerator_count_matches_cardinality() {
    let petnames = Petnames::new("x y z", "p q", "m n o");
    for words in 1..=4u8 {
        let mut rng = StdRng::seed_from_u64(words as u64);
        let mut names = petnames.iter_non_repeating(&mut rng, words);
        let mut drawn: u128 = 0;
        while names.next_raw().is_some() {
            drawn += 1;
        }
        assert_eq!(petnames.cardinality(words), drawn, "length {words}");
    }
}

#[test]
fn enumerator_remaining_counts_down() {
    let petnames = Petnames::new("a1 a2", "b1", "c1 c2");
    let mut rng = StdRng::seed_from_u64(3);
    let mut names = petnames.iter_non_repeating(&mut rng, 3);
    let mut expected = petnames.cardinality(3);
    assert_eq!(4, expected);
    while expected > 0 {
        assert_eq!(expected, names.remaining());
        assert!(names.next_raw().is_some());
        expected -= 1;
    }
    assert_eq!(0, names.remaining());
}

#[test]
fn enumerator_with_empty_list_yields_nothing() {
    let mut rng = StdRng::seed_from_u64(5);
    let no_nouns = Petnames::new("a", "b", "");
    let mut names = no_nouns.iter_non_repeating(&mut rng, 3);
    assert_eq!(0, names.remaining());
    assert_eq!(None, names.next_name("-"));

    let petnames = Petnames::new("a", "b", "c");
    let mut zero = petnames.iter_non_repeating(&mut rng, 0);
    assert_eq!(0, zero.remaining());
    assert_eq!(None, zero.next_raw());
}

#[test]
fn enumerator_raw_tuples_keep_role_order() {
    let petnames = Petnames::new("adj1 adj2", "adv1", "noun1 noun2");
    let mut rng = StdRng::seed_from_u64(11);
    let mut names = petnames.iter_non_repeating(&mut rng, 3);
    while let Some(tuple) = names.next_raw() {
        assert_eq!(3, tuple.len());
        assert!(tuple[0].starts_with("adv"));
        assert!(tuple[1].starts_with("adj"));
        assert!(tuple[2].starts_with("noun"));
    }
}

#[test]
fn enumerator_single_word_lists_single_combination() {
    let petnames = Petnames::new("solo", "only", "one");
    let mut rng = StdRng::seed_from_u64(9);
    let mut names = petnames.iter_non_repeating(&mut rng, 3);
    assert_eq!(1, names.remaining());
    assert_eq!(Some("only:solo:one".to_string()), names.next_name(":"));
    assert_eq!(None, names.next_name(":"));
}
