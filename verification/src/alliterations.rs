//! Word lists grouped by leading letter, for alliterative names.

use vstd::prelude::*;

use crate::rng::draw_below;
use crate::rng::rng_from_entropy;
use crate::generate::join_with;
use crate::generate::join_words;
use crate::generate::kept_roles;
use crate::generate::raw_ok;
use crate::roles::role_seq;
use crate::store::Petnames;
use crate::store::WordsView;
use crate::store::cardinality_spec;
use crate::store::mask_filter;
use crate::store::sat_cap;
use crate::store::word_views;

verus! {

/// Whether a word begins with the letter `c`.
pub open spec fn starts_with(w: Seq<char>, c: char) -> bool {
    w.len() > 0 && w[0] == c
}

/// The words of `ws` beginning with `c`, in order. Empty words never match.
pub open spec fn filter_first(ws: Seq<Seq<char>>, c: char) -> Seq<Seq<char>>
    decreases ws.len(),
{
    if ws.len() == 0 {
        Seq::empty()
    } else {
        let init = filter_first(ws.drop_last(), c);
        if starts_with(ws.last(), c) {
            init.push(ws.last())
        } else {
            init
        }
    }
}

/// The sub-store of `v` restricted to words beginning with `c`.
pub open spec fn group_of(v: WordsView, c: char) -> WordsView {
    WordsView {
        adjectives: filter_first(v.adjectives, c),
        adverbs: filter_first(v.adverbs, c),
        nouns: filter_first(v.nouns, c),
    }
}

/// The leading letters of the nouns of `v`: the letters a name of any length
/// down to a single word can begin with.
pub open spec fn noun_letters(v: WordsView) -> Set<char> {
    Set::new(|c: char| exists|i: int| 0 <= i < v.nouns.len() && starts_with(#[trigger] v.nouns[i], c))
}

/// The groups of an `Alliterations`, letter and sub-store views.
pub open spec fn groups_view(gs: Seq<(char, Petnames)>) -> Seq<(char, WordsView)> {
    Seq::new(gs.len(), |i: int| (gs[i].0, gs[i].1@))
}

/// Whether the group letters are strictly increasing (so also distinct).
pub open spec fn keys_sorted(gs: Seq<(char, WordsView)>) -> bool {
    forall|i: int, j: int| 0 <= i < j < gs.len() ==> (gs[i].0 as u32) < (gs[j].0 as u32)
}

/// The saturating sum of the groups' cardinalities for names of `n` words.
pub open spec fn alliterations_cardinality_spec(gs: Seq<(char, WordsView)>, n: nat) -> u128
    decreases gs.len(),
{
    if gs.len() == 0 {
        0
    } else {
        sat_cap(
            alliterations_cardinality_spec(gs.drop_last(), n) + cardinality_spec(gs.last().1, n),
        )
    }
}

/// Saturating addition.
fn sat_add(a: u128, b: u128) -> (r: u128)
    ensures
        r == sat_cap(a + b),
{
    match a.checked_add(b) {
        Some(v) => v,
        None => u128::MAX,
    }
}

/// The first character of a word, if the word is not empty.
fn first_char(w: &String) -> (r: Option<char>)
    ensures
        match r {
            Option::None => w@.len() == 0,
            Option::Some(c) => starts_with(w@, c),
        },
{
    if w.as_str().is_empty() {
        None
    } else {
        Some(w.as_str().get_char(0))
    }
}

/// The words of `ws` beginning with `c`, in their original order.
fn filter_words_by_letter(ws: &Vec<String>, c: char) -> (r: Vec<String>)
    ensures
        word_views(r@) == filter_first(word_views(ws@), c),
{
    let ghost all = word_views(ws@);
    let mut out: Vec<String> = Vec::new();
    for k in 0..ws.len()
        invariant
            all == word_views(ws@),
            word_views(out@) == filter_first(all.take(k as int), c),
    {
        proof {
            assert(all.take(k + 1).drop_last() =~= all.take(k as int));
            assert(all.take(k + 1).last() == ws@[k as int]@);
        }
        let matches_letter = match first_char(&ws[k]) {
            Some(first) => first == c,
            None => false,
        };
        if matches_letter {
            let word = ws[k].clone();
            let ghost out_before = out@;
            out.push(word);
            proof {
                assert(word_views(out@).drop_last() =~= word_views(out_before));
                assert(word_views(out@) =~= filter_first(all.take(k + 1), c));
            }
        } else {
            proof {
                assert(word_views(out@) =~= filter_first(all.take(k + 1), c));
            }
        }
    }
    proof {
        assert(all.take(ws@.len() as int) =~= all);
    }
    out
}

/// Word lists grouped by shared leading letter.
///
/// Every group's words all begin with the group's letter; the letters are the
/// leading letters of the original nouns, so that even a one-word name can be
/// drawn from every group.
#[derive(Debug, PartialEq, Eq)]
pub struct Alliterations {
    pub groups: Vec<(char, Petnames)>,
}

impl Alliterations {
    /// Group a word store by leading letter.
    ///
    /// There is one group per distinct leading letter of the nouns, in letter
    /// order; adjectives and adverbs beginning with a letter no noun begins
    /// with are dropped, as no name could be completed from them.
    pub fn from_petnames(petnames: &Petnames) -> (r: Alliterations)
        ensures
            keys_sorted(groups_view(r.groups@)),
            forall|i: int|
                0 <= i < r.groups@.len() ==> noun_letters(petnames@).contains(
                    #[trigger] groups_view(r.groups@)[i].0,
                ),
            forall|c: char|
                noun_letters(petnames@).contains(c) ==> exists|i: int|
                    0 <= i < r.groups@.len() && #[trigger] groups_view(r.groups@)[i].0 == c,
            forall|i: int|
                0 <= i < r.groups@.len() ==> #[trigger] groups_view(r.groups@)[i].1 == group_of(
                    petnames@,
                    groups_view(r.groups@)[i].0,
                ),
    {
        let letters = noun_letters_sorted(&petnames.nouns);
        proof {
            assert(forall|c: char|
                noun_letters(petnames@).contains(c) <==> letters@.contains(c));
        }
        let mut groups: Vec<(char, Petnames)> = Vec::new();
        for k in 0..letters.len()
            invariant
                forall|i: int, j: int|
                    0 <= i < j < letters@.len() ==> (letters@[i] as u32) < (letters@[j] as u32),
                forall|c: char| noun_letters(petnames@).contains(c) <==> letters@.contains(c),
                groups@.len() == k,
                forall|i: int| 0 <= i < k ==> #[trigger] groups_view(groups@)[i].0 == letters@[i],
                forall|i: int|
                    0 <= i < k ==> #[trigger] groups_view(groups@)[i].1 == group_of(
                        petnames@,
                        letters@[i],
                    ),
        {
            let ghost groups_before = groups@;
            let c = letters[k];
            let sub = Petnames {
                adjectives: filter_words_by_letter(&petnames.adjectives, c),
                adverbs: filter_words_by_letter(&petnames.adverbs, c),
                nouns: filter_words_by_letter(&petnames.nouns, c),
            };
            groups.push((c, sub));
            proof {
                assert(forall|i: int|
                    0 <= i < k ==> #[trigger] groups_view(groups@)[i] == groups_view(
                        groups_before,
                    )[i]);
                assert(groups_view(groups@)[k as int].1 == group_of(petnames@, c));
            }
        }
        let r = Alliterations { groups };
        proof {
            assert forall|i: int| 0 <= i < r.groups@.len() implies noun_letters(
                petnames@,
            ).contains(#[trigger] groups_view(r.groups@)[i].0) by {
                assert(letters@[i] == groups_view(r.groups@)[i].0);
                assert(letters@.contains(letters@[i]));
            }
            assert forall|c: char| noun_letters(petnames@).contains(c) implies exists|i: int|
                0 <= i < r.groups@.len() && #[trigger] groups_view(r.groups@)[i].0 == c by {
                assert(letters@.contains(c));
                let i = choose|i: int| 0 <= i < letters@.len() && letters@[i] == c;
                assert(groups_view(r.groups@)[i].0 == c);
            }
        }
        r
    }

    /// Keep only the groups matching the predicate, in order.
    pub fn retain<F: Fn(&char, &Petnames) -> bool>(&mut self, predicate: F)
        requires
            forall|c: &char, g: &Petnames| #[trigger] call_requires(predicate, (c, g)),
        ensures
            exists|keep: Seq<bool>|
                {
                    &&& keep.len() == old(self).groups@.len()
                    &&& groups_view(final(self).groups@) == mask_filter(
                        groups_view(old(self).groups@),
                        keep,
                    )
                    &&& forall|j: int|
                        0 <= j < keep.len() ==> #[trigger] call_ensures(
                            predicate,
                            (&old(self).groups@[j].0, &old(self).groups@[j].1),
                            keep[j],
                        )
                },
    {
        let ghost orig = self.groups@;
        let mut out: Vec<(char, Petnames)> = Vec::new();
        let ghost mut keep: Seq<bool> = Seq::empty();
        for k in 0..self.groups.len()
            invariant
                self.groups@ == orig,
                keep.len() == k,
                groups_view(out@) == mask_filter(groups_view(orig.take(k as int)), keep),
                forall|j: int|
                    0 <= j < k ==> #[trigger] call_ensures(
                        predicate,
                        (&orig[j].0, &orig[j].1),
                        keep[j],
                    ),
                forall|c: &char, g: &Petnames| #[trigger] call_requires(predicate, (c, g)),
        {
            let verdict = predicate(&self.groups[k].0, &self.groups[k].1);
            let ghost keep_before = keep;
            proof {
                keep = keep.push(verdict);
                assert(groups_view(orig.take(k + 1)).drop_last() =~= groups_view(
                    orig.take(k as int),
                ));
                assert(keep.drop_last() =~= keep_before);
            }
            if verdict {
                let letter = self.groups[k].0;
                let group = self.groups[k].1.clone();
                out.push((letter, group));
                proof {
                    assert(groups_view(out@).drop_last() =~= mask_filter(
                        groups_view(orig.take(k as int)),
                        keep_before,
                    ));
                    assert(groups_view(out@).last() == groups_view(orig.take(k + 1)).last());
                    assert(groups_view(out@) =~= mask_filter(groups_view(orig.take(k + 1)), keep));
                }
            } else {
                proof {
                    assert(groups_view(out@) =~= mask_filter(groups_view(orig.take(k + 1)), keep));
                }
            }
        }
        proof {
            assert(orig.take(orig.len() as int) =~= orig);
            assert(groups_view(orig.take(orig.len() as int)) =~= groups_view(orig));
        }
        self.groups = out;
    }

    /// The count of distinct names of `words` words over all groups: the
    /// saturating sum of every group's cardinality.
    pub fn cardinality(&self, words: u8) -> (r: u128)
        ensures
            r == alliterations_cardinality_spec(groups_view(self.groups@), words as nat),
    {
        let ghost all = groups_view(self.groups@);
        let mut acc: u128 = 0;
        for k in 0..self.groups.len()
            invariant
                all == groups_view(self.groups@),
                acc == alliterations_cardinality_spec(all.take(k as int), words as nat),
        {
            proof {
                assert(all.take(k + 1).drop_last() =~= all.take(k as int));
                assert(all.take(k + 1).last().1 == self.groups@[k as int].1@);
            }
            let group_count = self.groups[k].1.cardinality(words);
            acc = sat_add(acc, group_count);
        }
        proof {
            assert(all.take(self.groups@.len() as int) =~= all);
        }
        acc
    }

    /// Draw the words of one name, all beginning with one letter: pick a
    /// group uniformly at random, then sample from that group alone.
    pub fn generate_raw(&self, rng: &mut rand::rngs::StdRng, words: u8) -> (r: Option<Vec<String>>)
        ensures
            self.groups@.len() == 0 ==> r is None,
            r is None ==> self.groups@.len() == 0 || exists|i: int|
                0 <= i < self.groups@.len() && kept_roles(
                    #[trigger] groups_view(self.groups@)[i].1,
                    role_seq(words as nat),
                ).len() == 0,
            (self.groups@.len() > 0 && forall|i: int|
                0 <= i < self.groups@.len() ==> kept_roles(
                    #[trigger] groups_view(self.groups@)[i].1,
                    role_seq(words as nat),
                ).len() > 0) ==> r is Some,
            r is Some ==> exists|i: int|
                0 <= i < self.groups@.len() && raw_ok(
                    #[trigger] groups_view(self.groups@)[i].1,
                    words as nat,
                    word_views(r.unwrap()@),
                ),
    {
        if self.groups.len() == 0 {
            return None;
        }
        let i = draw_below(rng, self.groups.len());
        let r = self.groups[i].1.generate_raw(rng, words);
        proof {
            assert(groups_view(self.groups@)[i as int].1 == self.groups@[i as int].1@);
        }
        r
    }

    /// Generate one alliterative name, joined with the separator.
    pub fn generate(&self, rng: &mut rand::rngs::StdRng, words: u8, separator: &str) -> (r: Option<
        String,
    >)
        ensures
            self.groups@.len() == 0 ==> r is None,
            (self.groups@.len() > 0 && forall|i: int|
                0 <= i < self.groups@.len() ==> kept_roles(
                    #[trigger] groups_view(self.groups@)[i].1,
                    role_seq(words as nat),
                ).len() > 0) ==> r is Some,
            r is Some ==> exists|i: int, ws: Seq<Seq<char>>|
                #![trigger raw_ok(groups_view(self.groups@)[i].1, words as nat, ws)]
                0 <= i < self.groups@.len() && raw_ok(
                    groups_view(self.groups@)[i].1,
                    words as nat,
                    ws,
                ) && r.unwrap()@ == join_words(ws, separator@),
    {
        match self.generate_raw(rng, words) {
            Some(ws) => {
                let joined = join_with(&ws, separator);
                proof {
                    let i = choose|i: int|
                        0 <= i < self.groups@.len() && raw_ok(
                            #[trigger] groups_view(self.groups@)[i].1,
                            words as nat,
                            word_views(ws@),
                        );
                    assert(raw_ok(groups_view(self.groups@)[i].1, words as nat, word_views(ws@))
                        && joined@ == join_words(word_views(ws@), separator@));
                }
                Some(joined)
            },
            None => None,
        }
    }

    /// Generate one alliterative name from a fresh operating-system-seeded
    /// random source.
    pub fn generate_one(&self, words: u8, separator: &str) -> (r: Option<String>)
        ensures
            self.groups@.len() == 0 ==> r is None,
            (self.groups@.len() > 0 && forall|i: int|
                0 <= i < self.groups@.len() ==> kept_roles(
                    #[trigger] groups_view(self.groups@)[i].1,
                    role_seq(words as nat),
                ).len() > 0) ==> r is Some,
            r is Some ==> exists|i: int, ws: Seq<Seq<char>>|
                #![trigger raw_ok(groups_view(self.groups@)[i].1, words as nat, ws)]
                0 <= i < self.groups@.len() && raw_ok(
                    groups_view(self.groups@)[i].1,
                    words as nat,
                    ws,
                ) && r.unwrap()@ == join_words(ws, separator@),
    {
        let mut rng = rng_from_entropy();
        self.generate(&mut rng, words, separator)
    }
}

impl Default for Alliterations {
    /// The groups of the default word store.
    fn default() -> (r: Self)
        ensures
            keys_sorted(groups_view(r.groups@)),
            forall|i: int|
                0 <= i < r.groups@.len() ==> noun_letters(crate::words::medium_view()).contains(
                    #[trigger] groups_view(r.groups@)[i].0,
                ),
            forall|c: char|
                noun_letters(crate::words::medium_view()).contains(c) ==> exists|i: int|
                    0 <= i < r.groups@.len() && #[trigger] groups_view(r.groups@)[i].0 == c,
            forall|i: int|
                0 <= i < r.groups@.len() ==> #[trigger] groups_view(r.groups@)[i].1 == group_of(
                    crate::words::medium_view(),
                    groups_view(r.groups@)[i].0,
                ),
    {
        let petnames = Petnames::medium();
        Alliterations::from_petnames(&petnames)
    }
}

impl Clone for Alliterations {
    fn clone(&self) -> (r: Self)
        ensures
            groups_view(r.groups@) == groups_view(self.groups@),
    {
        let mut out: Vec<(char, Petnames)> = Vec::new();
        for k in 0..self.groups.len()
            invariant
                out@.len() == k,
                forall|j: int|
                    0 <= j < k ==> #[trigger] groups_view(out@)[j] == groups_view(
                        self.groups@,
                    )[j],
        {
            let letter = self.groups[k].0;
            let group = self.groups[k].1.clone();
            let ghost out_before = out@;
            out.push((letter, group));
            proof {
                assert(forall|j: int|
                    #![trigger groups_view(out@)[j]]
                    0 <= j < k ==> groups_view(out@)[j] == groups_view(out_before)[j]);
                assert(groups_view(out@)[k as int] == groups_view(self.groups@)[k as int]);
            }
        }
        proof {
            assert(groups_view(out@) =~= groups_view(self.groups@));
        }
        Alliterations { groups: out }
    }
}

/// The distinct leading letters of the given nouns, in increasing order.
fn noun_letters_sorted(nouns: &Vec<String>) -> (r: Vec<char>)
    ensures
        forall|i: int, j: int| 0 <= i < j < r@.len() ==> (r@[i] as u32) < (r@[j] as u32),
        forall|c: char|
            r@.contains(c) <==> exists|i: int|
                0 <= i < nouns@.len() && starts_with(#[trigger] word_views(nouns@)[i], c),
{
    let ghost ws = word_views(nouns@);
    let mut letters: Vec<char> = Vec::new();
    for k in 0..nouns.len()
        invariant
            ws == word_views(nouns@),
            forall|i: int, j: int|
                0 <= i < j < letters@.len() ==> (letters@[i] as u32) < (letters@[j] as u32),
            forall|c: char|
                letters@.contains(c) <==> exists|i: int|
                    0 <= i < k && starts_with(#[trigger] ws[i], c),
    {
        match first_char(&nouns[k]) {
            None => {
                proof {
                    assert(ws[k as int].len() == 0);
                }
            },
            Some(c) => {
                insert_letter(&mut letters, c);
                proof {
                    assert(starts_with(ws[k as int], c));
                }
            },
        }
        proof {
            assert(forall|c2: char|
                letters@.contains(c2) <==> exists|i: int|
                    0 <= i < k + 1 && starts_with(#[trigger] ws[i], c2));
        }
    }
    letters
}

/// Distinct characters have distinct scalar values.
proof fn lemma_char_cast_injective(a: char, b: char)
    ensures
        (a as u32) == (b as u32) ==> a == b,
{
    vstd::utf8::char_u32_cast(a, a as u32);
    vstd::utf8::char_u32_cast(b, b as u32);
}

/// Insert a letter into a strictly sorted letter list, keeping it sorted and
/// duplicate-free.
fn insert_letter(letters: &mut Vec<char>, c: char)
    requires
        forall|i: int, j: int|
            0 <= i < j < old(letters)@.len()
                ==> (old(letters)@[i] as u32) < (old(letters)@[j] as u32),
    ensures
        forall|i: int, j: int|
            0 <= i < j < final(letters)@.len()
                ==> (final(letters)@[i] as u32) < (final(letters)@[j] as u32),
        forall|c2: char|
            final(letters)@.contains(c2) <==> old(letters)@.contains(c2) || c2 == c,
{
    let ghost orig = letters@;
    let mut pos: usize = 0;
    while pos < letters.len() && (letters[pos] as u32) < (c as u32)
        invariant
            letters@ == orig,
            pos <= orig.len(),
            forall|i: int| 0 <= i < pos ==> (orig[i] as u32) < (c as u32),
            forall|i: int, j: int|
                0 <= i < j < orig.len() ==> (orig[i] as u32) < (orig[j] as u32),
        decreases orig.len() - pos,
    {
        pos = pos + 1;
    }
    if pos < letters.len() && letters[pos] == c {
        proof {
            assert(orig[pos as int] == c);
            assert(orig.contains(c));
        }
        return ;
    }
    let ghost had_more = pos < orig.len();
    proof {
        if had_more {
            assert((orig[pos as int] as u32) >= (c as u32));
            assert(orig[pos as int] != c);
            lemma_char_cast_injective(orig[pos as int], c);
            assert((orig[pos as int] as u32) > (c as u32));
        }
    }
    letters.insert(pos, c);
    proof {
        let now = letters@;
        assert(now.len() == orig.len() + 1);
        assert(forall|i: int| 0 <= i < pos ==> now[i] == orig[i]);
        assert(now[pos as int] == c);
        assert(forall|i: int| pos < i < now.len() ==> now[i] == orig[i - 1]);
        if had_more {
            assert((orig[pos as int] as u32) > (c as u32));
        }
        assert forall|i: int, j: int| 0 <= i < j < now.len() implies (now[i] as u32) < (
        now[j] as u32) by {
            assert(forall|p: int| 0 <= p < pos ==> ((orig[p] as u32) < (c as u32)));
            assert(forall|p: int, q: int|
                0 <= p < q < orig.len() ==> ((orig[p] as u32) < (orig[q] as u32)));
            if j < pos {
                assert(now[i] == orig[i] && now[j] == orig[j]);
            } else if j == pos {
                assert(now[i] == orig[i] && i < pos);
                assert((orig[i] as u32) < (c as u32));
            } else {
                assert(now[j] == orig[j - 1] && pos <= j - 1 < orig.len());
                assert(had_more);
                assert((orig[pos as int] as u32) > (c as u32));
                if j - 1 > pos {
                    assert((orig[pos as int] as u32) < (orig[j - 1] as u32));
                }
                assert((c as u32) < (orig[j - 1] as u32));
                if i < pos {
                    assert(now[i] == orig[i]);
                    assert((orig[i] as u32) < (c as u32));
                } else if i == pos {
                    assert(now[i] == c);
                } else {
                    assert(now[i] == orig[i - 1]);
                }
            }
        }
        assert forall|c2: char| now.contains(c2) implies orig.contains(c2) || c2 == c by {
            let i = choose|i: int| 0 <= i < now.len() && now[i] == c2;
            if i < pos {
                assert(orig[i] == c2);
            } else if i > pos {
                assert(orig[i - 1] == c2);
            }
        }
        assert forall|c2: char| orig.contains(c2) implies now.contains(c2) by {
            let i = choose|i: int| 0 <= i < orig.len() && orig[i] == c2;
            if i < pos {
                assert(now[i] == c2);
            } else {
                assert(now[i + 1] == c2);
            }
        }
        assert(now.contains(c));
    }
}

} // verus!
