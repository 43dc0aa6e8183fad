//! The role sequencer: which word list supplies each position of a name.
//!
//! A name of `n` words contains, in order: `n - 2` adverbs when `n >= 2`
//! (otherwise none), one adjective when `n >= 2`, and one noun when `n >= 1`.

use vstd::prelude::*;

verus! {

/// A role a word can play in a name: the word list to draw from.
#[derive(Clone, Copy, Debug, PartialEq, Eq)]
pub enum List {
    Adverb,
    Adjective,
    Noun,
}

/// The ordered sequence of roles for a name of `n` words.
pub open spec fn role_seq(n: nat) -> Seq<List> {
    if n == 0 {
        Seq::empty()
    } else if n == 1 {
        seq![List::Noun]
    } else {
        Seq::new((n - 2) as nat, |i: int| List::Adverb) + seq![List::Adjective, List::Noun]
    }
}

pub proof fn lemma_role_seq_len(n: nat)
    ensures
        role_seq(n).len() == n,
{
}

/// State machine yielding the roles of `role_seq`, front to back.
///
/// `Adverb(k)` stands for `k + 1` adverbs still to come, followed by an
/// adjective and a noun.
#[derive(Clone, Copy, Debug, PartialEq, Eq)]
pub enum Lists {
    Adverb(u8),
    Adjective,
    Noun,
    Done,
}

impl Lists {
    /// The roles this state still yields, in order.
    pub open spec fn view(self) -> Seq<List> {
        match self {
            Lists::Adverb(k) => Seq::new(
                k as nat + 1,
                |i: int| List::Adverb,
            ) + seq![List::Adjective, List::Noun],
            Lists::Adjective => seq![List::Adjective, List::Noun],
            Lists::Noun => seq![List::Noun],
            Lists::Done => Seq::empty(),
        }
    }

    /// The initial state for a name of `words` words.
    pub fn new(words: u8) -> (r: Lists)
        ensures
            r@ == role_seq(words as nat),
    {
        let r = match words {
            0 => Lists::Done,
            1 => Lists::Noun,
            2 => Lists::Adjective,
            n => Lists::Adverb(n - 3),
        };
        proof {
            if words >= 3 {
                assert(r@ =~= role_seq(words as nat));
            } else {
                assert(r@ =~= role_seq(words as nat));
            }
        }
        r
    }

    /// The role to draw for the current position, if any.
    pub fn current(&self) -> (r: Option<List>)
        ensures
            r == if self@.len() == 0 {
                Option::<List>::None
            } else {
                Option::<List>::Some(self@[0])
            },
    {
        match self {
            Lists::Adjective => Some(List::Adjective),
            Lists::Adverb(_) => Some(List::Adverb),
            Lists::Noun => Some(List::Noun),
            Lists::Done => None,
        }
    }

    /// Step past the current position.
    pub fn advance(&mut self)
        ensures
            final(self)@ == if old(self)@.len() == 0 {
                old(self)@
            } else {
                old(self)@.skip(1)
            },
    {
        *self = match self {
            Lists::Adverb(0) => Lists::Adjective,
            Lists::Adverb(remaining) => Lists::Adverb(*remaining - 1),
            Lists::Adjective => Lists::Noun,
            Lists::Noun | Lists::Done => Lists::Done,
        };
    }

    /// Yield the current role and advance, as an iterator would.
    pub fn next(&mut self) -> (r: Option<List>)
        ensures
            old(self)@.len() == 0 ==> r is None && final(self)@ == old(self)@,
            old(self)@.len() > 0 ==> r == Some(old(self)@[0]) && final(self)@ == old(self)@.skip(
                1,
            ),
    {
        let current = self.current();
        self.advance();
        current
    }

    /// Exactly how many roles are still to come.
    pub fn remaining(&self) -> (r: usize)
        ensures
            r == self@.len(),
    {
        match self {
            Lists::Adverb(n) => (*n as usize) + 3,
            Lists::Adjective => 2,
            Lists::Noun => 1,
            Lists::Done => 0,
        }
    }

    /// The exact size bounds of the remaining role sequence.
    pub fn size_hint(&self) -> (r: (usize, Option<usize>))
        ensures
            r.0 == self@.len(),
            r.1 == Some(self@.len() as usize),
    {
        let remaining = self.remaining();
        (remaining, Some(remaining))
    }
}

} // verus!
