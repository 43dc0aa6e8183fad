//! The role sequencer, stepped by hand.

use petname::List;
use petname::Lists;

#[test]
fn lists_sequences_adverbs_adjectives_then_names() {
    let mut lists = Lists::new(4);
    assert_eq!(Lists::Adverb(1), lists);
    assert_eq!(Some(List::Adverb), lists.next());
    assert_eq!(Lists::Adverb(0), lists);
    assert_eq!(Some(List::Adverb), lists.next());
    assert_eq!(Lists::Adjective, lists);
    assert_eq!(Some(List::Adjective), lists.next());
    assert_eq!(Lists::Noun, lists);
    assert_eq!(Some(List::Noun), lists.next());
    assert_eq!(Lists::Done, lists);
    assert_eq!(None, lists.next());
}

#[test]
fn lists_size_hint() {
    let mut lists = Lists::new(3);
    assert_eq!((3, Some(3)), lists.size_hint());
    assert!(lists.next().is_some());
    assert_eq!((2, Some(2)), lists.size_hint());
    assert!(lists.next().is_some());
    assert_eq!((1, Some(1)), lists.size_hint());
    assert!(lists.next().is_some());
    assert_eq!((0, Some(0)), lists.size_hint());
    assert_eq!(None, lists.next());
    assert_eq!((0, Some(0)), lists.size_hint());
}

#[test]
fn lists_zero_words_is_done() {
    let mut lists = Lists::new(0);
    assert_eq!(Lists::Done, lists);
    assert_eq!((0, Some(0)), lists.size_hint());
    assert_eq!(None, lists.next());
}

#[test]
fn lists_single_word_is_noun_only() {
    let mut lists = Lists::new(1);
    assert_eq!(Some(List::Noun), lists.next());
    assert_eq!(None, lists.next());
}
