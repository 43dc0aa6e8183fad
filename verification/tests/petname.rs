//! The convenience function over the default word lists.

use petname::petname;

#[test]
fn petname_petname_renders_desired_number_of_words() {
    assert_eq!(petname(7, "-").unwrap().split('-').count(), 7);
}

#[test]
fn petname_petname_renders_with_desired_separator() {
    assert_eq!(petname(7, "@").unwrap().split('@').count(), 7);
}

#[test]
fn petname_zero_words_yields_nothing() {
    assert_eq!(None, petname(0, "-"));
}
