//! The word store exercised through the convenience surface.

use petname::Petnames;
use petname::petname;
use rand::SeedableRng;
use rand::rngs::StdRng;

#[test]
fn basic_petnames_default_has_adjectives() {
    let petnames = Petnames::default();
    assert_ne!(petnames.adjectives.len(), 0);
}

#[test]
fn basic_petnames_default_has_adverbs() {
    let petnames = Petnames::default();
    assert_ne!(petnames.adverbs.len(), 0);
}

#[test]
fn basic_petnames_default_has_names() {
    let petnames = Petnames::default();
    assert_ne!(petnames.nouns.len(), 0);
}

#[test]
fn basic_petnames_retain_applies_given_predicate() {
    let petnames_expected = Petnames::new("bob", "bob", "bob jane");
    let mut petnames = Petnames::new("alice bob carol", "alice bob", "bob carol jane");
    petnames.retain(|word| word.len() < 5);
    assert_eq!(petnames_expected, petnames);
}

#[test]
fn basic_petnames_generate_uses_adverb_adjective_name() {
    let petnames = Petnames {
        adjectives: vec!["adjective".to_string()],
        adverbs: vec!["adverb".to_string()],
        nouns: vec!["noun".to_string()],
    };
    let mut rng = StdRng::seed_from_u64(0);
    assert_eq!(petnames.generate(&mut rng, 3, "-"), Some("adverb-adjective-noun".into()));
}

#[test]
fn basic_petnames_iter_yields_names() {
    let rng = StdRng::seed_from_u64(0);
    let petnames = Petnames::new("foo", "bar", "baz");
    let mut names = petnames.iter(rng, 3, ".");
    assert_eq!(Some("bar.foo.baz".to_string()), names.next_name());
}

#[test]
fn basic_petname_renders_desired_number_of_words() {
    assert_eq!(petname(7, "-").unwrap().split('-').count(), 7);
}

#[test]
fn basic_petname_renders_with_desired_separator() {
    assert_eq!(petname(7, "@").unwrap().split('@').count(), 7);
}

#[test]
fn basic_generate_one_uses_given_store() {
    let petnames = Petnames::new("tiny", "softly", "seal");
    assert_eq!(Some("softly-tiny-seal".to_string()), petnames.generate_one(3, "-"));
    assert_eq!(Some("seal".to_string()), petnames.generate_one(1, "-"));
}
