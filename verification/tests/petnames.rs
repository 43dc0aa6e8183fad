//! The word store: construction, retain, cardinality, and sampling.

use petname::Petnames;
use petname::WordList;
use rand::SeedableRng;
use rand::rngs::StdRng;

#[test]
fn petnames_petnames_default_has_adjectives() {
    let petnames = Petnames::default();
    assert_ne!(petnames.adjectives.len(), 0);
}

#[test]
fn petnames_petnames_default_has_adverbs() {
    let petnames = Petnames::default();
    assert_ne!(petnames.adverbs.len(), 0);
}

#[test]
fn petnames_petnames_default_has_names() {
    let petnames = Petnames::default();
    assert_ne!(petnames.nouns.len(), 0);
}

#[test]
fn petnames_petnames_retain_applies_given_predicate() {
    let petnames_expected = Petnames::new("bob", "bob", "bob jane");
    let mut petnames = Petnames::new("alice bob carol", "alice bob", "bob carol jane");
    petnames.retain(|word| word.len() < 5);
    assert_eq!(petnames_expected, petnames);
}

#[test]
fn petnames_petnames_default_has_non_zero_cardinality() {
    let petnames = Petnames::default();
    // This test will need to be adjusted when word lists change.
    assert_eq!(0, petnames.cardinality(0));
    assert_eq!(1056, petnames.cardinality(1));
    assert_eq!(1265088, petnames.cardinality(2));
    assert_eq!(2062093440, petnames.cardinality(3));
    assert_eq!(3361212307200, petnames.cardinality(4));
}

#[test]
fn petnames_petnames_generate_uses_adverb_adjective_name() {
    let petnames = Petnames {
        adjectives: vec!["adjective".to_string()],
        adverbs: vec!["adverb".to_string()],
        nouns: vec!["noun".to_string()],
    };
    let mut rng = StdRng::seed_from_u64(0);
    assert_eq!(petnames.generate(&mut rng, 3, "-"), Some("adverb-adjective-noun".into()));
}

#[test]
fn petnames_petnames_iter_yields_names() {
    let rng = StdRng::seed_from_u64(0);
    let petnames = Petnames::new("foo", "bar", "baz");
    let mut names = petnames.iter(rng, 3, ".");
    assert_eq!(Some("bar.foo.baz".to_string()), names.next_name());
}

#[test]
fn petnames_iter_yields_nothing_when_empty() {
    let rng = StdRng::seed_from_u64(0);
    let petnames = Petnames::new("", "", "");
    assert_eq!(0, petnames.cardinality(3));
    let mut names = petnames.iter(rng, 3, ".");
    assert_eq!(None, names.next_name());
}

#[test]
fn petnames_raw_works() {
    let mut rng = StdRng::seed_from_u64(0);
    let words = [":?-_", "_?:-", "-:_?"];
    let petnames = Petnames::new(words[0], words[1], words[2]);
    let result = petnames.generate_raw(&mut rng, 3).unwrap();
    assert_eq!(3, result.len());
    assert_eq!(vec![words[1].to_string(), words[0].to_string(), words[2].to_string()], result);
}

#[test]
fn petnames_new_splits_on_arbitrary_whitespace() {
    let petnames = Petnames::new("a b\tc", " d \n e ", "f\r\ng\u{a0}h");
    assert_eq!(vec!["a", "b", "c"], petnames.adjectives);
    assert_eq!(vec!["d", "e"], petnames.adverbs);
    assert_eq!(vec!["f", "g", "h"], petnames.nouns);
}

#[test]
fn petnames_generate_zero_words_yields_nothing() {
    let mut rng = StdRng::seed_from_u64(1);
    let petnames = Petnames::new("a", "b", "c");
    assert_eq!(None, petnames.generate(&mut rng, 0, "-"));
    assert_eq!(None, petnames.generate_raw(&mut rng, 0));
}

#[test]
fn petnames_generate_raw_yields_requested_length_in_role_order() {
    let mut rng = StdRng::seed_from_u64(2);
    let petnames = Petnames::new("quick calm", "gently", "fox owl");
    for n in 1..=6u8 {
        let raw = petnames.generate_raw(&mut rng, n).unwrap();
        assert_eq!(n as usize, raw.len());
        for (i, word) in raw.iter().enumerate() {
            let expected_list: &[&str] = if i + 1 == raw.len() {
                &["fox", "owl"]
            } else if i + 2 == raw.len() {
                &["quick", "calm"]
            } else {
                &["gently"]
            };
            assert!(expected_list.contains(&word.as_str()), "word {word} at {i} of {n}");
        }
    }
}

#[test]
fn petnames_generate_skips_empty_roles() {
    let mut rng = StdRng::seed_from_u64(3);
    // No adverbs: a 4-word request can still only produce adjective-noun.
    let petnames = Petnames::new("big", "", "cat");
    assert_eq!(Some("big-cat".to_string()), petnames.generate(&mut rng, 4, "-"));
    // No nouns either side: nothing at all once every list is empty.
    let empty = Petnames::new("", "", "");
    assert_eq!(None, empty.generate(&mut rng, 4, "-"));
}

#[test]
fn petnames_retain_can_empty_a_role() {
    let mut petnames = Petnames::new("big", "slowly", "cat dog");
    assert_eq!(2, petnames.cardinality(1));
    petnames.retain(|word| !word.starts_with('c') && !word.starts_with('d'));
    assert_eq!(0, petnames.nouns.len());
    assert_eq!(0, petnames.cardinality(1));
    assert_eq!(0, petnames.cardinality(2));
    assert_eq!(0, petnames.cardinality(5));
    // The surviving roles still produce their words; the noun is omitted.
    let mut rng = StdRng::seed_from_u64(4);
    assert_eq!(Some("slowly-big".to_string()), petnames.generate(&mut rng, 3, "-"));
}

#[test]
fn petnames_cardinality_matches_formula() {
    let petnames = Petnames::new("a1 a2 a3", "v1 v2", "n1 n2 n3 n4 n5");
    assert_eq!(0, petnames.cardinality(0));
    assert_eq!(5, petnames.cardinality(1));
    assert_eq!(15, petnames.cardinality(2));
    assert_eq!(30, petnames.cardinality(3));
    assert_eq!(60, petnames.cardinality(4));
    assert_eq!(120, petnames.cardinality(5));
}

#[test]
fn petnames_cardinality_saturates_instead_of_overflowing() {
    let petnames = Petnames::default();
    assert_eq!(u128::MAX, petnames.cardinality(255));
    let empty_nouns = Petnames::new("a", "b", "");
    assert_eq!(0, empty_nouns.cardinality(255));
}

#[test]
fn petnames_small_medium_large_sizes_grow() {
    let small = Petnames::small();
    let medium = Petnames::medium();
    let large = Petnames::large();
    assert!(small.cardinality(3) > 0);
    assert!(small.cardinality(3) < medium.cardinality(3));
    assert!(medium.cardinality(3) < large.cardinality(3));
}

#[test]
fn word_list_selects_and_labels() {
    assert_eq!("small", WordList::Small.label());
    assert_eq!("medium", WordList::Medium.label());
    assert_eq!("large", WordList::Large.label());
    assert_eq!(Petnames::medium(), WordList::Medium.select());
    assert_eq!(Petnames::default(), WordList::Medium.select());
}
