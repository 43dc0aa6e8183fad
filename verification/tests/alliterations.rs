//! Grouping word stores by leading letter.

use petname::Alliterations;
use petname::Petnames;
use rand::SeedableRng;
use rand::rngs::StdRng;

#[test]
fn alliterations_from_petnames() {
    let petnames = Petnames::new("able bold", "burly curly", "ant bee cow");
    let alliterations = Alliterations::from_petnames(&petnames);
    let alliterations_expected = Alliterations {
        groups: vec![
            ('a', Petnames::new("able", "", "ant")),
            ('b', Petnames::new("bold", "burly", "bee")),
            ('c', Petnames::new("", "curly", "cow")),
        ],
    };
    assert_eq!(alliterations_expected, alliterations);
}

#[test]
fn alliterations_retain_applies_given_predicate() {
    let petnames = Petnames::new("able bold", "burly curly", "ant bee cow");
    let mut alliterations = Alliterations::from_petnames(&petnames);
    alliterations.retain(|first_letter, _petnames| *first_letter != 'b');
    let alliterations_expected = Alliterations {
        groups: vec![
            ('a', Petnames::new("able", "", "ant")),
            ('c', Petnames::new("", "curly", "cow")),
        ],
    };
    assert_eq!(alliterations_expected, alliterations);
}

#[test]
fn alliterations_default_has_non_zero_cardinality() {
    let alliterations = Alliterations::default();
    // This test will need to be adjusted when word lists change.
    assert_eq!(0, alliterations.cardinality(0));
    assert_eq!(1056, alliterations.cardinality(1));
    assert_eq!(69734, alliterations.cardinality(2));
    assert_eq!(8145549, alliterations.cardinality(3));
    assert_eq!(1137581773, alliterations.cardinality(4));
}

#[test]
fn alliterations_iter_yields_nothing_when_empty() {
    let mut rng = StdRng::seed_from_u64(0);
    let alliteration = Alliterations { groups: vec![] };
    assert_eq!(0, alliteration.cardinality(3));
    assert_eq!(None, alliteration.generate(&mut rng, 3, "."));
}

#[test]
fn alliterations_generate_shares_one_first_letter() {
    let petnames = Petnames::new("able bold", "burly curly", "ant bee cow");
    let alliterations = Alliterations::from_petnames(&petnames);
    let mut rng = StdRng::seed_from_u64(7);
    for _ in 0..50 {
        let name = alliterations.generate(&mut rng, 3, "-").unwrap();
        let mut letters: Vec<char> =
            name.split('-').map(|word| word.chars().next().unwrap()).collect();
        letters.dedup();
        assert_eq!(1, letters.len(), "not alliterative: {name}");
    }
}

#[test]
fn alliterations_drops_letterless_nouns_and_nounless_letters() {
    // "zeta" has no matching noun; the empty word never forms a group.
    let petnames = Petnames::new("zeta alpha", "", "ant");
    let alliterations = Alliterations::from_petnames(&petnames);
    let expected = Alliterations { groups: vec![('a', Petnames::new("alpha", "", "ant"))] };
    assert_eq!(expected, alliterations);
}

#[test]
fn alliterations_retain_keeps_chosen_letter() {
    let petnames = Petnames::new("able bold", "burly curly", "ant bee cow");
    let mut alliterations = Alliterations::from_petnames(&petnames);
    alliterations.retain(|first_letter, group| *first_letter == 'b' && group.cardinality(3) > 0);
    assert_eq!(1, alliterations.groups.len());
    assert_eq!('b', alliterations.groups[0].0);
    let mut rng = StdRng::seed_from_u64(1);
    assert_eq!(Some("burly-bold-bee".to_string()), alliterations.generate(&mut rng, 3, "-"));
}

#[test]
fn alliterations_cardinality_sums_groups() {
    let petnames = Petnames::new("able bold", "burly curly", "ant bee cow");
    let alliterations = Alliterations::from_petnames(&petnames);
    // 'a': 1 adjective, 0 adverbs, 1 noun; 'b': 1, 1, 1; 'c': 0, 1, 1.
    assert_eq!(3, alliterations.cardinality(1));
    assert_eq!(2, alliterations.cardinality(2));
    assert_eq!(1, alliterations.cardinality(3));
}
