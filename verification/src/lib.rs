//! Human-readable random name ("petname") composition.
//!
//! Word lists for three roles (adverbs, adjectives, nouns) are combined into
//! separator-joined names. Names are drawn either by independent random
//! sampling, or by exhaustive non-repeating enumeration over the cartesian
//! product of the lists. Word lists can be grouped by leading letter for
//! alliterative names, and the exact (saturating) count of distinct names is
//! available ahead of generation.

pub mod alliterations;
pub mod enumerate;
pub mod generate;
pub mod roles;
mod rng;
pub mod store;
pub mod words;

pub use alliterations::Alliterations;
pub use enumerate::NonRepeating;
pub use generate::NameStream;
pub use roles::List;
pub use roles::Lists;
pub use store::Petnames;
pub use store::WordList;

use vstd::prelude::*;

verus! {

/// Generate one name from the default word lists and a fresh random source:
/// `words` words joined by `separator`, or nothing when no role yields words.
pub fn petname(words: u8, separator: &str) -> (r: Option<String>)
    ensures
        r is Some <==> generate::kept_roles(
            words::medium_view(),
            roles::role_seq(words as nat),
        ).len() > 0,
        r is Some ==> exists|ws: Seq<Seq<char>>|
            #[trigger] generate::raw_ok(words::medium_view(), words as nat, ws) && r.unwrap()@
                == generate::join_words(ws, separator@),
{
    Petnames::medium().generate_one(words, separator)
}

} // verus!
