//! The sampling generator: one uniformly random word per visited role.

use vstd::prelude::*;

use crate::rng::draw_below;
use crate::rng::rng_from_entropy;
use crate::roles::List;
use crate::roles::Lists;
use crate::roles::role_seq;
use crate::store::Petnames;
use crate::store::WordsView;
use crate::store::list_of;
use crate::store::word_views;

verus! {

/// The roles of `roles` whose word list in `v` is non-empty, in order.
///
/// A visited role with an empty list contributes no word to a name.
pub open spec fn kept_roles(v: WordsView, roles: Seq<List>) -> Seq<List>
    decreases roles.len(),
{
    if roles.len() == 0 {
        Seq::empty()
    } else {
        let init = kept_roles(v, roles.drop_last());
        if list_of(v, roles.last()).len() > 0 {
            init.push(roles.last())
        } else {
            init
        }
    }
}

/// What a raw drawing for a name of `n` words looks like: one word out of the
/// matching list for each visited role whose list is non-empty, in role order.
pub open spec fn raw_ok(v: WordsView, n: nat, ws: Seq<Seq<char>>) -> bool {
    let kept = kept_roles(v, role_seq(n));
    &&& ws.len() == kept.len()
    &&& forall|i: int| 0 <= i < ws.len() ==> list_of(v, kept[i]).contains(#[trigger] ws[i])
}

/// When every visited list has words, no role is skipped.
pub proof fn lemma_kept_roles_all(v: WordsView, roles: Seq<List>)
    requires
        forall|i: int| 0 <= i < roles.len() ==> list_of(v, #[trigger] roles[i]).len() > 0,
    ensures
        kept_roles(v, roles) == roles,
    decreases roles.len(),
{
    if roles.len() > 0 {
        lemma_kept_roles_all(v, roles.drop_last());
        assert(kept_roles(v, roles.drop_last()).push(roles.last()) =~= roles);
    }
}

/// A role with an empty word list never reaches the drawn words.
pub proof fn lemma_empty_role_omitted(v: WordsView, roles: Seq<List>, role: List)
    requires
        list_of(v, role).len() == 0,
    ensures
        !kept_roles(v, roles).contains(role),
    decreases roles.len(),
{
    if roles.len() > 0 {
        lemma_empty_role_omitted(v, roles.drop_last(), role);
        let kept = kept_roles(v, roles);
        if kept.contains(role) {
            let i = choose|i: int| 0 <= i < kept.len() && kept[i] == role;
            if list_of(v, roles.last()).len() > 0 {
                assert(kept == kept_roles(v, roles.drop_last()).push(roles.last()));
                if i < kept.len() - 1 {
                    assert(kept_roles(v, roles.drop_last()).contains(role));
                }
            } else {
                assert(kept_roles(v, roles.drop_last()).contains(role));
            }
        }
    }
}

/// With `n >= 1` and no list empty, a raw drawing holds exactly `n` words:
/// adverbs in the first `n - 2` positions (when `n >= 2`), then an adjective
/// (when `n >= 2`), then a noun.
pub proof fn lemma_raw_full_length(v: WordsView, n: nat, ws: Seq<Seq<char>>)
    requires
        n >= 1,
        v.adjectives.len() > 0,
        v.adverbs.len() > 0,
        v.nouns.len() > 0,
        raw_ok(v, n, ws),
    ensures
        ws.len() == n,
        forall|i: int| 0 <= i < n - 2 ==> v.adverbs.contains(#[trigger] ws[i]),
        n >= 2 ==> v.adjectives.contains(ws[n - 2]),
        v.nouns.contains(ws[n - 1]),
{
    let roles = role_seq(n);
    crate::roles::lemma_role_seq_len(n);
    assert(forall|i: int| 0 <= i < roles.len() ==> list_of(v, #[trigger] roles[i]).len() > 0);
    lemma_kept_roles_all(v, roles);
    if n == 1 {
        assert(roles[0] == List::Noun);
    } else {
        assert(forall|i: int| 0 <= i < n - 2 ==> roles[i] == List::Adverb);
        assert(roles[n - 2] == List::Adjective);
        assert(roles[n - 1] == List::Noun);
    }
}

/// The words joined by the separator, with no leading or trailing separator.
pub open spec fn join_words(ws: Seq<Seq<char>>, sep: Seq<char>) -> Seq<char>
    decreases ws.len(),
{
    if ws.len() == 0 {
        Seq::empty()
    } else if ws.len() == 1 {
        ws[0]
    } else {
        join_words(ws.drop_last(), sep) + sep + ws.last()
    }
}

/// Join words with a separator between consecutive words.
pub(crate) fn join_with(words: &Vec<String>, separator: &str) -> (r: String)
    ensures
        r@ == join_words(word_views(words@), separator@),
{
    let ghost all = word_views(words@);
    let mut acc = String::new();
    for k in 0..words.len()
        invariant
            all == word_views(words@),
            acc@ == join_words(all.take(k as int), separator@),
    {
        proof {
            assert(all.take(k + 1).drop_last() =~= all.take(k as int));
            assert(all.take(k + 1).last() == words@[k as int]@);
        }
        if k > 0 {
            acc.append(separator);
        }
        acc.append(words[k].as_str());
        proof {
            if k == 0 {
                assert(acc@ =~= all.take(1)[0]);
            }
        }
    }
    proof {
        assert(all.take(words@.len() as int) =~= all);
    }
    acc
}

impl Petnames {
    /// Draw the constituent words of one name: for each visited role with a
    /// non-empty list, one uniformly random word of that list.
    ///
    /// Yields words only for the roles whose lists are non-empty, so the
    /// result may hold fewer than `words` words; when no role yields a word
    /// there is no name at all.
    pub fn generate_raw(&self, rng: &mut rand::rngs::StdRng, words: u8) -> (r: Option<
        Vec<String>,
    >)
        ensures
            r is Some <==> kept_roles(self@, role_seq(words as nat)).len() > 0,
            r is Some ==> raw_ok(self@, words as nat, word_views(r.unwrap()@)),
    {
        let ghost v = self@;
        let ghost all = role_seq(words as nat);
        proof {
            crate::roles::lemma_role_seq_len(words as nat);
        }
        let mut lists = Lists::new(words);
        let mut out: Vec<String> = Vec::new();
        for k in 0..(words as usize)
            invariant
                all == role_seq(words as nat),
                v == self@,
                lists@ =~= all.skip(k as int),
                all.len() == words,
                word_views(out@).len() == kept_roles(v, all.take(k as int)).len(),
                forall|i: int|
                    0 <= i < out@.len() ==> list_of(
                        v,
                        kept_roles(v, all.take(k as int))[i],
                    ).contains(#[trigger] word_views(out@)[i]),
        {
            let ghost kept_before = kept_roles(v, all.take(k as int));
            let role = lists.next().unwrap();
            proof {
                assert(all.skip(k as int)[0] == all[k as int]);
                assert(all.skip(k as int).skip(1) =~= all.skip(k + 1));
                assert(all.take(k + 1).drop_last() =~= all.take(k as int));
                assert(all.take(k + 1).last() == all[k as int]);
            }
            let list: &Vec<String> = match role {
                List::Adverb => &self.adverbs,
                List::Adjective => &self.adjectives,
                List::Noun => &self.nouns,
            };
            proof {
                assert(word_views(list@) == list_of(v, role));
            }
            if list.len() > 0 {
                let j = draw_below(rng, list.len());
                let word = list[j].clone();
                let ghost out_before = out@;
                out.push(word);
                proof {
                    let kept_now = kept_roles(v, all.take(k + 1));
                    let last = out_before.len() as int;
                    assert(kept_now == kept_before.push(role));
                    assert(kept_before.len() == last);
                    assert(kept_now[last] == role);
                    assert(forall|i: int|
                        #![trigger kept_now[i]]
                        0 <= i < last ==> kept_now[i] == kept_before[i]);
                    assert(forall|i: int|
                        #![trigger word_views(out@)[i]]
                        0 <= i < last ==> word_views(out@)[i] == word_views(out_before)[i]);
                    assert(word_views(out@)[last] == list@[j as int]@);
                    assert(list_of(v, role)[j as int] == list@[j as int]@);
                    assert(list_of(v, role).contains(list@[j as int]@));
                    assert(forall|i: int|
                        0 <= i < out@.len() ==> list_of(v, kept_now[i]).contains(
                            #[trigger] word_views(out@)[i],
                        ));
                }
            } else {
                proof {
                    assert(kept_roles(v, all.take(k + 1)) == kept_before);
                }
            }
        }
        proof {
            assert(all.take(words as int) =~= all);
        }
        if out.len() == 0 {
            None
        } else {
            Some(out)
        }
    }

    /// Generate one name: the raw drawing of `generate_raw`, joined with the
    /// separator.
    pub fn generate(&self, rng: &mut rand::rngs::StdRng, words: u8, separator: &str) -> (r: Option<
        String,
    >)
        ensures
            r is Some <==> kept_roles(self@, role_seq(words as nat)).len() > 0,
            r is Some ==> exists|ws: Seq<Seq<char>>|
                #[trigger] raw_ok(self@, words as nat, ws) && r.unwrap()@ == join_words(
                    ws,
                    separator@,
                ),
    {
        match self.generate_raw(rng, words) {
            Some(ws) => {
                let joined = join_with(&ws, separator);
                proof {
                    assert(raw_ok(self@, words as nat, word_views(ws@)) && joined@ == join_words(
                        word_views(ws@),
                        separator@,
                    ));
                }
                Some(joined)
            },
            None => None,
        }
    }

    /// Generate one name from a fresh operating-system-seeded random source.
    pub fn generate_one(&self, words: u8, separator: &str) -> (r: Option<String>)
        ensures
            r is Some <==> kept_roles(self@, role_seq(words as nat)).len() > 0,
            r is Some ==> exists|ws: Seq<Seq<char>>|
                #[trigger] raw_ok(self@, words as nat, ws) && r.unwrap()@ == join_words(
                    ws,
                    separator@,
                ),
    {
        let mut rng = rng_from_entropy();
        self.generate(&mut rng, words, separator)
    }

    /// A stream of names drawn by repeated sampling, owning its random source.
    ///
    /// Duplicates are expected and likely; reconstruct the stream to restart
    /// it.
    pub fn iter(&self, rng: rand::rngs::StdRng, words: u8, separator: &str) -> (r: NameStream)
        ensures
            r.petnames@ == self@,
            r.words == words,
            r.separator@ == separator@,
    {
        NameStream { petnames: self.clone(), rng, words, separator: separator.to_owned() }
    }
}

/// An unbounded source of sampled names: each call of `next_name` draws one.
pub struct NameStream {
    pub petnames: Petnames,
    pub rng: rand::rngs::StdRng,
    pub words: u8,
    pub separator: String,
}

impl NameStream {
    /// Draw the next name, as `Petnames::generate` would.
    pub fn next_name(&mut self) -> (r: Option<String>)
        ensures
            final(self).petnames@ == old(self).petnames@,
            final(self).words == old(self).words,
            final(self).separator@ == old(self).separator@,
            r is Some <==> kept_roles(
                old(self).petnames@,
                role_seq(old(self).words as nat),
            ).len() > 0,
            r is Some ==> exists|ws: Seq<Seq<char>>|
                #[trigger] raw_ok(old(self).petnames@, old(self).words as nat, ws)
                    && r.unwrap()@ == join_words(ws, old(self).separator@),
    {
        let words = self.words;
        let separator = self.separator.clone();
        self.petnames.generate(&mut self.rng, words, separator.as_str())
    }
}

} // verus!
