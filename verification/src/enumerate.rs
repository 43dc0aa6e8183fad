//! The non-repeating enumerator: every combination of the visited lists,
//! exactly once, in shuffled order, without materializing the product.
//!
//! The per-position cursors form an odometer over the shuffled lists: the
//! first position is the fastest digit. The counter a cursor state encodes in
//! mixed radix ticks up by one on each drawn name, so each counter value below
//! the product of the list lengths is drawn exactly once.

use vstd::prelude::*;

use crate::rng::draw_below;
use crate::roles::List;
use crate::roles::Lists;
use crate::roles::role_seq;
use crate::store::Petnames;
use crate::store::WordsView;
use crate::store::cardinality_spec;
use crate::store::len_bounded;
use crate::store::list_of;
use crate::store::word_views;

verus! {

use vstd::arithmetic::div_mod::lemma_div_pos_is_pos;
use vstd::arithmetic::div_mod::lemma_fundamental_div_mod;
use vstd::arithmetic::div_mod::lemma_fundamental_div_mod_converse_div;
use vstd::arithmetic::div_mod::lemma_fundamental_div_mod_converse_mod;
use vstd::arithmetic::div_mod::lemma_mod_bound;

/// Whether every list has at least one word.
pub open spec fn positive_lists(lists: Seq<Seq<Seq<char>>>) -> bool {
    forall|j: int| 0 <= j < lists.len() ==> (#[trigger] lists[j]).len() > 0
}

/// The number of combinations: the product of the list lengths.
pub open spec fn total_of(lists: Seq<Seq<Seq<char>>>) -> int
    decreases lists.len(),
{
    if lists.len() == 0 {
        1
    } else {
        lists[0].len() * total_of(lists.drop_first())
    }
}

/// Whether each cursor points into its list.
pub open spec fn valid_cursors(lists: Seq<Seq<Seq<char>>>, cursors: Seq<int>) -> bool {
    &&& cursors.len() == lists.len()
    &&& forall|j: int| 0 <= j < cursors.len() ==> 0 <= #[trigger] cursors[j] < lists[j].len()
}

/// The mixed-radix value the cursors encode; the first position is the
/// fastest digit.
pub open spec fn counter_of(lists: Seq<Seq<Seq<char>>>, cursors: Seq<int>) -> int
    decreases lists.len(),
{
    if lists.len() == 0 {
        0
    } else {
        cursors[0] + lists[0].len() * counter_of(lists.drop_first(), cursors.drop_first())
    }
}

/// The mixed-radix digits of a counter value.
pub open spec fn digits_of(lists: Seq<Seq<Seq<char>>>, c: int) -> Seq<int>
    decreases lists.len(),
{
    if lists.len() == 0 {
        Seq::empty()
    } else {
        seq![c % (lists[0].len() as int)] + digits_of(
            lists.drop_first(),
            c / (lists[0].len() as int),
        )
    }
}

/// The combination the counter value `c` stands for: one word per position.
pub open spec fn tuple_at(lists: Seq<Seq<Seq<char>>>, c: int) -> Seq<Seq<char>> {
    Seq::new(lists.len(), |j: int| lists[j][digits_of(lists, c)[j]])
}

/// A product of positive lengths is positive.
pub proof fn lemma_total_positive(lists: Seq<Seq<Seq<char>>>)
    requires
        positive_lists(lists),
    ensures
        total_of(lists) >= 1,
    decreases lists.len(),
{
    if lists.len() > 0 {
        assert(positive_lists(lists.drop_first()));
        lemma_total_positive(lists.drop_first());
        assert(lists[0].len() * total_of(lists.drop_first()) >= 1) by (nonlinear_arith)
            requires
                lists[0].len() >= 1,
                total_of(lists.drop_first()) >= 1,
        ;
    }
}

/// Valid cursors encode a counter inside the range of combinations.
pub proof fn lemma_counter_bounds(lists: Seq<Seq<Seq<char>>>, cursors: Seq<int>)
    requires
        positive_lists(lists),
        valid_cursors(lists, cursors),
    ensures
        0 <= counter_of(lists, cursors) < total_of(lists),
    decreases lists.len(),
{
    if lists.len() == 0 {
    } else {
        assert(positive_lists(lists.drop_first()));
        assert(valid_cursors(lists.drop_first(), cursors.drop_first()));
        lemma_counter_bounds(lists.drop_first(), cursors.drop_first());
        let l0 = lists[0].len() as int;
        let d0 = cursors[0];
        let rest = counter_of(lists.drop_first(), cursors.drop_first());
        let t = total_of(lists.drop_first());
        assert(0 <= d0 + l0 * rest < l0 * t) by (nonlinear_arith)
            requires
                0 <= d0 < l0,
                0 <= rest < t,
        ;
    }
}

/// The digits of the counter encoded by valid cursors are those cursors.
pub proof fn lemma_digits_of_counter(lists: Seq<Seq<Seq<char>>>, cursors: Seq<int>)
    requires
        positive_lists(lists),
        valid_cursors(lists, cursors),
    ensures
        digits_of(lists, counter_of(lists, cursors)) == cursors,
    decreases lists.len(),
{
    if lists.len() == 0 {
        assert(digits_of(lists, counter_of(lists, cursors)) =~= cursors);
    } else {
        assert(positive_lists(lists.drop_first()));
        assert(valid_cursors(lists.drop_first(), cursors.drop_first()));
        lemma_digits_of_counter(lists.drop_first(), cursors.drop_first());
        lemma_counter_bounds(lists.drop_first(), cursors.drop_first());
        let l0 = lists[0].len() as int;
        let d0 = cursors[0];
        let rest = counter_of(lists.drop_first(), cursors.drop_first());
        let c = counter_of(lists, cursors);
        assert(c == rest * l0 + d0) by (nonlinear_arith)
            requires
                c == d0 + l0 * rest,
        ;
        lemma_fundamental_div_mod_converse_mod(c, l0, rest, d0);
        lemma_fundamental_div_mod_converse_div(c, l0, rest, d0);
        assert(digits_of(lists, c) =~= cursors);
    }
}

/// Every counter value below the total decodes to valid cursors that encode
/// it back.
pub proof fn lemma_counter_of_digits(lists: Seq<Seq<Seq<char>>>, c: int)
    requires
        positive_lists(lists),
        0 <= c < total_of(lists),
    ensures
        valid_cursors(lists, digits_of(lists, c)),
        counter_of(lists, digits_of(lists, c)) == c,
    decreases lists.len(),
{
    if lists.len() == 0 {
    } else {
        let l0 = lists[0].len() as int;
        let d0 = c % l0;
        let c2 = c / l0;
        let t = total_of(lists.drop_first());
        lemma_mod_bound(c, l0);
        lemma_div_pos_is_pos(c, l0);
        lemma_fundamental_div_mod(c, l0);
        assert(c2 < t) by (nonlinear_arith)
            requires
                c == l0 * c2 + d0,
                0 <= d0 < l0,
                c < l0 * t,
                0 <= c2,
        ;
        assert(positive_lists(lists.drop_first()));
        lemma_counter_of_digits(lists.drop_first(), c2);
        let digits = digits_of(lists, c);
        assert(digits == seq![d0] + digits_of(lists.drop_first(), c2));
        assert(digits.drop_first() =~= digits_of(lists.drop_first(), c2));
        assert(valid_cursors(lists, digits));
        assert(counter_of(lists, digits) == d0 + l0 * c2);
    }
}

/// Distinct counter values stand for distinct combinations, as long as no
/// list repeats a word.
pub proof fn lemma_tuples_distinct(lists: Seq<Seq<Seq<char>>>, c1: int, c2: int)
    requires
        positive_lists(lists),
        forall|j: int| 0 <= j < lists.len() ==> (#[trigger] lists[j]).no_duplicates(),
        0 <= c1 < total_of(lists),
        0 <= c2 < total_of(lists),
        c1 != c2,
    ensures
        tuple_at(lists, c1) != tuple_at(lists, c2),
{
    let d1 = digits_of(lists, c1);
    let d2 = digits_of(lists, c2);
    lemma_counter_of_digits(lists, c1);
    lemma_counter_of_digits(lists, c2);
    if tuple_at(lists, c1) == tuple_at(lists, c2) {
        assert forall|j: int| 0 <= j < lists.len() implies d1[j] == d2[j] by {
            assert(tuple_at(lists, c1)[j] == tuple_at(lists, c2)[j]);
            assert(lists[j][d1[j]] == lists[j][d2[j]]);
            if d1[j] != d2[j] {
                assert(lists[j].no_duplicates());
                assert(false);
            }
        }
        assert(d1 =~= d2);
        assert(c1 == c2);
    }
}

/// An odometer step adds one to the counter: the positions below the carry
/// stop wrap from their top value to zero, the position at the stop ticks up,
/// and the rest stand still.
pub proof fn lemma_counter_increment(
    lists: Seq<Seq<Seq<char>>>,
    before: Seq<int>,
    after: Seq<int>,
    j: int,
)
    requires
        positive_lists(lists),
        valid_cursors(lists, before),
        valid_cursors(lists, after),
        0 <= j < lists.len(),
        forall|i: int| 0 <= i < j ==> #[trigger] before[i] == lists[i].len() - 1,
        forall|i: int| 0 <= i < j ==> #[trigger] after[i] == 0,
        after[j] == before[j] + 1,
        forall|i: int| j < i < lists.len() ==> #[trigger] after[i] == before[i],
    ensures
        counter_of(lists, after) == counter_of(lists, before) + 1,
    decreases j,
{
    let l0 = lists[0].len() as int;
    if j == 0 {
        assert(after.drop_first() =~= before.drop_first());
        assert(counter_of(lists, after) == after[0] + l0 * counter_of(
            lists.drop_first(),
            after.drop_first(),
        ));
    } else {
        assert(positive_lists(lists.drop_first()));
        assert(valid_cursors(lists.drop_first(), before.drop_first()));
        assert(valid_cursors(lists.drop_first(), after.drop_first()));
        lemma_counter_increment(lists.drop_first(), before.drop_first(), after.drop_first(), j - 1);
        let cb = counter_of(lists.drop_first(), before.drop_first());
        let ca = counter_of(lists.drop_first(), after.drop_first());
        assert(ca == cb + 1);
        assert(before[0] == l0 - 1);
        assert(after[0] == 0);
        assert(l0 * ca == l0 * cb + l0) by (nonlinear_arith)
            requires
                ca == cb + 1,
        ;
    }
}

/// With every cursor at its top value the counter is the last one.
pub proof fn lemma_counter_all_max(lists: Seq<Seq<Seq<char>>>, cursors: Seq<int>)
    requires
        positive_lists(lists),
        valid_cursors(lists, cursors),
        forall|i: int| 0 <= i < cursors.len() ==> #[trigger] cursors[i] == lists[i].len() - 1,
    ensures
        counter_of(lists, cursors) == total_of(lists) - 1,
    decreases lists.len(),
{
    if lists.len() > 0 {
        assert(positive_lists(lists.drop_first()));
        assert(valid_cursors(lists.drop_first(), cursors.drop_first()));
        lemma_counter_all_max(lists.drop_first(), cursors.drop_first());
        let l0 = lists[0].len() as int;
        let t = total_of(lists.drop_first());
        assert((l0 - 1) + l0 * (t - 1) == l0 * t - 1) by (nonlinear_arith);
    }
}

/// A reordering of a list without duplicates has no duplicates either.
pub proof fn lemma_permutation_preserves_no_duplicates<A>(a: Seq<A>, b: Seq<A>)
    requires
        a.to_multiset() == b.to_multiset(),
        a.no_duplicates(),
    ensures
        b.no_duplicates(),
{
    a.lemma_multiset_has_no_duplicates();
    b.lemma_multiset_has_no_duplicates_conv();
}

/// All-zero cursors encode the first counter value.
pub proof fn lemma_counter_zero(lists: Seq<Seq<Seq<char>>>, cursors: Seq<int>)
    requires
        cursors.len() == lists.len(),
        forall|i: int| 0 <= i < cursors.len() ==> #[trigger] cursors[i] == 0,
    ensures
        counter_of(lists, cursors) == 0,
    decreases lists.len(),
{
    if lists.len() > 0 {
        lemma_counter_zero(lists.drop_first(), cursors.drop_first());
        assert(lists[0].len() * 0 == 0);
    }
}

/// Unfold the product and the counter one position from the left.
proof fn lemma_suffix_step(lists: Seq<Seq<Seq<char>>>, cursors: Seq<int>, j: int)
    requires
        cursors.len() == lists.len(),
        0 <= j < lists.len(),
    ensures
        total_of(lists.skip(j)) == lists[j].len() * total_of(lists.skip(j + 1)),
        counter_of(lists.skip(j), cursors.skip(j)) == cursors[j] + lists[j].len() * counter_of(
            lists.skip(j + 1),
            cursors.skip(j + 1),
        ),
{
    assert(lists.skip(j)[0] == lists[j]);
    assert(cursors.skip(j)[0] == cursors[j]);
    assert(lists.skip(j).drop_first() =~= lists.skip(j + 1));
    assert(cursors.skip(j).drop_first() =~= cursors.skip(j + 1));
}

/// How many names are still to come for the suffix of positions from `j` on.
pub open spec fn remaining_suffix(
    lists: Seq<Seq<Seq<char>>>,
    cursors: Seq<int>,
    j: int,
) -> int {
    total_of(lists.skip(j)) - counter_of(lists.skip(j), cursors.skip(j))
}

/// When the view of `v` has a list for every visited role, with matching
/// lengths, the exact combination count clamps to the store's cardinality.
pub proof fn lemma_total_matches_cardinality(v: WordsView, n: nat, lists: Seq<Seq<Seq<char>>>)
    requires
        len_bounded(v),
        n >= 1,
        lists.len() == role_seq(n).len(),
        forall|j: int|
            0 <= j < lists.len() ==> (#[trigger] lists[j]).len() == list_of(
                v,
                role_seq(n)[j],
            ).len(),
    ensures
        cardinality_spec(v, n) == crate::store::sat_cap(total_of(lists)),
{
    lemma_total_is_prod(v, role_seq(n), lists);
    crate::store::lemma_sat_card_from_exact(v, role_seq(n), 1);
}

/// The combination count over lists that match the visited roles in length is
/// the exact product of the visited lists' lengths.
proof fn lemma_total_is_prod(v: WordsView, roles: Seq<List>, lists: Seq<Seq<Seq<char>>>)
    requires
        lists.len() == roles.len(),
        forall|j: int|
            0 <= j < lists.len() ==> (#[trigger] lists[j]).len() == list_of(v, roles[j]).len(),
    ensures
        total_of(lists) == crate::store::prod_of(v, roles),
    decreases roles.len(),
{
    if roles.len() > 0 {
        assert(forall|j: int|
            0 <= j < lists.drop_first().len() ==> (#[trigger] lists.drop_first()[j]).len()
                == list_of(v, roles.drop_first()[j]).len());
        lemma_total_is_prod(v, roles.drop_first(), lists.drop_first());
        assert(lists[0].len() == list_of(v, roles[0]).len());
    }
}

/// The non-repeating law: over an enumerator whose shuffled lists match the
/// visited lists of a store in length and repeat no word, the combinations
/// standing at two different counter values differ — so the draws of
/// `next_raw`, which walk the counter from zero upwards, never repeat — and
/// the number of counter values is exactly the store's cardinality, clamped
/// once at `u128::MAX`.
pub proof fn lemma_enumeration_exact(
    e: NonRepeating,
    v: WordsView,
    n: nat,
    c1: int,
    c2: int,
)
    requires
        e.wf(),
        len_bounded(v),
        n >= 1,
        e.lists().len() == role_seq(n).len(),
        forall|j: int|
            0 <= j < e.lists().len() ==> (#[trigger] e.lists()[j]).len() == list_of(
                v,
                role_seq(n)[j],
            ).len(),
        forall|j: int| 0 <= j < e.lists().len() ==> (#[trigger] e.lists()[j]).no_duplicates(),
        0 <= c1 < c2 < e.total(),
    ensures
        tuple_at(e.lists(), c1) != tuple_at(e.lists(), c2),
        cardinality_spec(v, n) == crate::store::sat_cap(e.total()),
{
    assert(positive_lists(e.lists()));
    lemma_tuples_distinct(e.lists(), c1, c2);
    lemma_total_matches_cardinality(v, n, e.lists());
}

/// A copy of a word list in uniformly shuffled order: the same words, as a
/// multiset, rearranged.
fn shuffled(list: &Vec<String>, rng: &mut rand::rngs::StdRng) -> (r: Vec<String>)
    ensures
        word_views(r@).to_multiset() == word_views(list@).to_multiset(),
        r@.len() == list@.len(),
{
    broadcast use vstd::seq_lib::group_to_multiset_ensures;
    broadcast use vstd::multiset::group_multiset_axioms;

    let mut src = crate::store::clone_words(list);
    let mut out: Vec<String> = Vec::new();
    proof {
        assert(word_views(src@).len() == src@.len());
        assert(word_views(list@).len() == list@.len());
        assert(word_views(out@) =~= Seq::<Seq<char>>::empty());
        assert(word_views(out@).to_multiset().add(word_views(src@).to_multiset())
            =~= word_views(list@).to_multiset());
    }
    while src.len() > 0
        invariant
            word_views(out@).to_multiset().add(word_views(src@).to_multiset()) == word_views(
                list@,
            ).to_multiset(),
            out@.len() + src@.len() == list@.len(),
        decreases src@.len(),
    {
        broadcast use vstd::seq_lib::group_to_multiset_ensures;
        broadcast use vstd::multiset::group_multiset_axioms;

        let j = draw_below(rng, src.len());
        let ghost src_before = src@;
        let ghost out_before = out@;
        let word = src.remove(j);
        out.push(word);
        proof {
            assert(word_views(src@) =~= word_views(src_before).remove(j as int));
            assert(word_views(out@) =~= word_views(out_before).push(word@));
            assert(word@ == word_views(src_before)[j as int]);
            assert(word_views(src@).to_multiset() == word_views(src_before).to_multiset().remove(
                word@,
            ));
            assert(word_views(out@).to_multiset() == word_views(out_before).to_multiset().insert(
                word@,
            ));
            assert(word_views(src_before).to_multiset().contains(word@));
            assert(word_views(out@).to_multiset().add(word_views(src@).to_multiset())
                =~= word_views(out_before).to_multiset().add(word_views(src_before).to_multiset()));
        }
    }
    proof {
        assert(word_views(src@) =~= Seq::<Seq<char>>::empty());
        assert(word_views(out@).to_multiset().add(word_views(src@).to_multiset()) =~= word_views(
            out@,
        ).to_multiset());
    }
    out
}

/// The non-repeating enumerator: an odometer over shuffled copies of the
/// visited lists. Each call of `next_raw` or `next_name` yields one
/// combination; after the last one it yields nothing, permanently.
pub struct NonRepeating {
    pub columns: Vec<Vec<String>>,
    pub cursors: Vec<usize>,
    pub exhausted: bool,
}

impl NonRepeating {
    /// The shuffled word lists, fastest position first.
    pub open spec fn lists(self) -> Seq<Seq<Seq<char>>> {
        Seq::new(self.columns@.len(), |j: int| word_views(self.columns@[j]@))
    }

    /// The cursor of each position.
    pub open spec fn cursor_view(self) -> Seq<int> {
        Seq::new(self.cursors@.len(), |j: int| self.cursors@[j] as int)
    }

    /// Structural soundness: one cursor per list, each inside its list, no
    /// empty list, and an empty enumerator only when exhausted.
    pub open spec fn wf(self) -> bool {
        &&& self.cursors@.len() == self.columns@.len()
        &&& positive_lists(self.lists())
        &&& valid_cursors(self.lists(), self.cursor_view())
        &&& (self.columns@.len() == 0 ==> self.exhausted)
    }

    /// The number of combinations already drawn, when not exhausted.
    pub open spec fn counter(self) -> int {
        counter_of(self.lists(), self.cursor_view())
    }

    /// The number of combinations in all.
    pub open spec fn total(self) -> int {
        total_of(self.lists())
    }

    /// Set up the enumerator: one shuffled copy of the visited list per
    /// position of a name of `words` words, every cursor at its start.
    ///
    /// A requested length of zero, or any visited list with no words, leaves
    /// nothing to enumerate: the enumerator starts out exhausted.
    pub fn new(petnames: &Petnames, rng: &mut rand::rngs::StdRng, words: u8) -> (r: NonRepeating)
        ensures
            r.wf(),
            r.exhausted <==> (words == 0 || petnames@.nouns.len() == 0 || (words >= 2
                && petnames@.adjectives.len() == 0) || (words >= 3 && petnames@.adverbs.len()
                == 0)),
            !r.exhausted ==> {
                &&& r.lists().len() == words as int
                &&& r.counter() == 0
                &&& forall|j: int|
                    0 <= j < words as int ==> (#[trigger] r.lists()[j]).to_multiset() == list_of(
                        petnames@,
                        role_seq(words as nat)[j],
                    ).to_multiset()
                &&& forall|j: int|
                    0 <= j < words as int ==> (#[trigger] r.lists()[j]).len() == list_of(
                        petnames@,
                        role_seq(words as nat)[j],
                    ).len()
            },
    {
        let degenerate = words == 0 || self_list_empty(petnames, words);
        if degenerate {
            return NonRepeating { columns: Vec::new(), cursors: Vec::new(), exhausted: true };
        }
        proof {
            crate::roles::lemma_role_seq_len(words as nat);
        }
        let ghost all = role_seq(words as nat);
        let mut lists_fsm = Lists::new(words);
        let mut columns: Vec<Vec<String>> = Vec::new();
        let mut cursors: Vec<usize> = Vec::new();
        for j in 0..(words as usize)
            invariant
                all == role_seq(words as nat),
                all.len() == words,
                lists_fsm@ =~= all.skip(j as int),
                columns@.len() == j,
                cursors@.len() == j,
                petnames@.nouns.len() > 0,
                words >= 2 ==> petnames@.adjectives.len() > 0,
                words >= 3 ==> petnames@.adverbs.len() > 0,
                forall|i: int| 0 <= i < j ==> #[trigger] cursors@[i] == 0,
                forall|i: int| 0 <= i < j ==> (#[trigger] columns@[i])@.len() > 0,
                forall|i: int|
                    0 <= i < j ==> word_views((#[trigger] columns@[i])@).to_multiset() == list_of(
                        petnames@,
                        all[i],
                    ).to_multiset(),
                forall|i: int|
                    0 <= i < j ==> word_views((#[trigger] columns@[i])@).len() == list_of(
                        petnames@,
                        all[i],
                    ).len(),
        {
            let role = lists_fsm.next().unwrap();
            proof {
                assert(all.skip(j as int)[0] == all[j as int]);
                assert(all.skip(j as int).skip(1) =~= all.skip(j + 1));
                lemma_role_kind(words as nat, j as int);
            }
            let src: &Vec<String> = match role {
                List::Adverb => &petnames.adverbs,
                List::Adjective => &petnames.adjectives,
                List::Noun => &petnames.nouns,
            };
            proof {
                assert(word_views(src@) == list_of(petnames@, all[j as int]));
                assert(src@.len() > 0);
            }
            let col = shuffled(src, rng);
            proof {
                vstd::seq_lib::lemma_multiset_commutative(word_views(col@), Seq::empty());
            }
            columns.push(col);
            cursors.push(0);
        }
        let r = NonRepeating { columns, cursors, exhausted: false };
        proof {
            assert(r.lists().len() == words as int);
            assert(forall|i: int|
                0 <= i < words as int ==> #[trigger] r.lists()[i] == word_views(columns@[i]@));
            assert(forall|i: int| 0 <= i < words as int ==> #[trigger] r.cursor_view()[i] == 0);
            lemma_counter_zero(r.lists(), r.cursor_view());
            assert(forall|i: int|
                0 <= i < words as int ==> (#[trigger] r.lists()[i]).to_multiset()
                    == word_views(columns@[i]@).to_multiset());
        }
        r
    }
}

impl NonRepeating {
    /// Draw the next combination, as its constituent words, and advance the
    /// odometer; nothing once every combination has been drawn.
    pub fn next_raw(&mut self) -> (r: Option<Vec<String>>)
        requires
            old(self).wf(),
        ensures
            final(self).wf(),
            final(self).lists() == old(self).lists(),
            old(self).exhausted ==> r is None && final(self).exhausted,
            !old(self).exhausted ==> {
                &&& r is Some
                &&& word_views(r.unwrap()@) == tuple_at(old(self).lists(), old(self).counter())
                &&& (if old(self).counter() + 1 < old(self).total() {
                    !final(self).exhausted && final(self).counter() == old(self).counter() + 1
                } else {
                    final(self).exhausted
                })
            },
    {
        if self.exhausted {
            return None;
        }
        let ghost lists = self.lists();
        let ghost before = self.cursor_view();
        let ghost columns_at_start = self.columns@;
        let k = self.columns.len();
        let mut out: Vec<String> = Vec::new();
        for j in 0..k
            invariant
                k == self.columns@.len(),
                k == self.cursors@.len(),
                self.wf(),
                lists == self.lists(),
                before == self.cursor_view(),
                out@.len() == j,
                forall|i: int| 0 <= i < j ==> (#[trigger] out@[i])@ == lists[i][before[i]],
        {
            proof {
                assert(self.cursor_view()[j as int] < self.lists()[j as int].len());
                assert(self.lists()[j as int] == word_views(self.columns@[j as int]@));
            }
            let ci = self.cursors[j];
            let column: &Vec<String> = &self.columns[j];
            let word = column[ci].clone();
            out.push(word);
        }
        proof {
            lemma_digits_of_counter(lists, before);
            lemma_counter_bounds(lists, before);
            assert(word_views(out@) =~= tuple_at(lists, counter_of(lists, before)));
        }
        let mut j: usize = 0;
        while j < k
            invariant_except_break
                j <= k,
                k == self.columns@.len(),
                k == self.cursors@.len(),
                self.columns@ == columns_at_start,
                !self.exhausted,
                lists == self.lists(),
                forall|i: int| 0 <= i < j ==> #[trigger] before[i] == lists[i].len() - 1,
                forall|i: int| 0 <= i < j ==> #[trigger] self.cursor_view()[i] == 0,
                forall|i: int| j <= i < k ==> #[trigger] self.cursor_view()[i] == before[i],
                valid_cursors(lists, self.cursor_view()),
            ensures
                k == self.columns@.len(),
                k == self.cursors@.len(),
                self.columns@ == columns_at_start,
                !self.exhausted,
                lists == self.lists(),
                valid_cursors(lists, self.cursor_view()),
                j <= k,
                j == k ==> (forall|i: int| 0 <= i < k ==> #[trigger] before[i] == lists[i].len()
                    - 1),
                j < k ==> {
                    &&& (forall|i: int| 0 <= i < j ==> #[trigger] before[i] == lists[i].len() - 1)
                    &&& (forall|i: int| 0 <= i < j ==> #[trigger] self.cursor_view()[i] == 0)
                    &&& self.cursor_view()[j as int] == before[j as int] + 1
                    &&& (forall|i: int|
                        j < i < k ==> #[trigger] self.cursor_view()[i] == before[i])
                },
            decreases k - j,
        {
            let ghost cv_before = self.cursor_view();
            proof {
                assert(cv_before[j as int] < lists[j as int].len());
                assert(lists[j as int] == word_views(self.columns@[j as int]@));
            }
            let cj = self.cursors[j];
            let len_j = self.columns[j].len();
            if cj + 1 == len_j {
                self.cursors[j] = 0;
                proof {
                    assert(self.lists() =~= lists);
                    assert(self.cursor_view() =~= cv_before.update(j as int, 0));
                    assert(before[j as int] == cv_before[j as int]);
                    assert(before[j as int] == lists[j as int].len() - 1);
                    assert(forall|i: int|
                        0 <= i < j + 1 ==> #[trigger] self.cursor_view()[i] == 0);
                    assert(forall|i: int|
                        j + 1 <= i < k ==> #[trigger] self.cursor_view()[i] == before[i]);
                }
                j = j + 1;
            } else {
                self.cursors[j] = cj + 1;
                proof {
                    assert(self.lists() =~= lists);
                    assert(self.cursor_view() =~= cv_before.update(j as int, cj + 1));
                    assert(cj + 1 < lists[j as int].len());
                    assert(self.cursor_view()[j as int] == before[j as int] + 1);
                    assert(forall|i: int|
                        j < i < k ==> #[trigger] self.cursor_view()[i] == before[i]);
                    assert(valid_cursors(lists, self.cursor_view()));
                }
                break ;
            }
        }
        if j == k {
            self.exhausted = true;
            proof {
                lemma_counter_all_max(lists, before);
            }
        } else {
            proof {
                lemma_counter_increment(lists, before, self.cursor_view(), j as int);
                lemma_counter_bounds(lists, self.cursor_view());
            }
        }
        Some(out)
    }

    /// Draw the next name: the next combination, joined with the separator.
    pub fn next_name(&mut self, separator: &str) -> (r: Option<String>)
        requires
            old(self).wf(),
        ensures
            final(self).wf(),
            final(self).lists() == old(self).lists(),
            old(self).exhausted ==> r is None && final(self).exhausted,
            !old(self).exhausted ==> {
                &&& r is Some
                &&& r.unwrap()@ == crate::generate::join_words(
                    tuple_at(old(self).lists(), old(self).counter()),
                    separator@,
                )
                &&& (if old(self).counter() + 1 < old(self).total() {
                    !final(self).exhausted && final(self).counter() == old(self).counter() + 1
                } else {
                    final(self).exhausted
                })
            },
    {
        match self.next_raw() {
            Some(ws) => Some(crate::generate::join_with(&ws, separator)),
            None => None,
        }
    }

    /// Exactly how many combinations are still to come, clamped at
    /// `u128::MAX`; zero once exhausted, and ticking down by one per draw
    /// below the clamp.
    pub fn remaining(&self) -> (r: u128)
        requires
            self.wf(),
        ensures
            self.exhausted ==> r == 0,
            !self.exhausted ==> r == crate::store::sat_cap(self.total() - self.counter()),
    {
        if self.exhausted {
            return 0;
        }
        let ghost lists = self.lists();
        let ghost cursors = self.cursor_view();
        let k = self.columns.len();
        let mut value: u128 = 1;
        let mut saturated = false;
        let mut j = k;
        proof {
            assert(lists.skip(k as int) =~= Seq::<Seq<Seq<char>>>::empty());
            assert(cursors.skip(k as int) =~= Seq::<int>::empty());
        }
        while j > 0
            invariant
                j <= k,
                k == self.columns@.len(),
                k == self.cursors@.len(),
                self.wf(),
                lists == self.lists(),
                cursors == self.cursor_view(),
                !saturated ==> value as int == remaining_suffix(lists, cursors, j as int),
                saturated ==> remaining_suffix(lists, cursors, j as int) > u128::MAX,
            decreases j,
        {
            j = j - 1;
            let l = self.columns[j].len();
            let d = self.cursors[j];
            proof {
                lemma_suffix_step(lists, cursors, j as int);
                assert(positive_lists(lists.skip(j + 1)));
                assert(valid_cursors(lists.skip(j + 1), cursors.skip(j + 1)));
                lemma_counter_bounds(lists.skip(j + 1), cursors.skip(j + 1));
                let li = l as int;
                let di = d as int;
                let rem2 = remaining_suffix(lists, cursors, j + 1);
                assert(rem2 >= 1);
                assert(remaining_suffix(lists, cursors, j as int) == li * (rem2 - 1) + (li - di))
                    by (nonlinear_arith)
                    requires
                        total_of(lists.skip(j as int)) == li * total_of(lists.skip(j + 1)),
                        counter_of(lists.skip(j as int), cursors.skip(j as int)) == di + li
                            * counter_of(lists.skip(j + 1), cursors.skip(j + 1)),
                        rem2 == total_of(lists.skip(j + 1)) - counter_of(
                            lists.skip(j + 1),
                            cursors.skip(j + 1),
                        ),
                ;
            }
            if saturated {
                proof {
                    let li = l as int;
                    let di = d as int;
                    let rem2 = remaining_suffix(lists, cursors, j + 1);
                    assert(li * (rem2 - 1) + (li - di) > u128::MAX) by (nonlinear_arith)
                        requires
                            rem2 > u128::MAX,
                            1 <= li,
                            0 <= di < li,
                            li <= u128::MAX,
                    ;
                }
            } else {
                let t1 = value - 1;
                let la = l as u128;
                let da = d as u128;
                match la.checked_mul(t1) {
                    None => {
                        saturated = true;
                        proof {
                            let li = l as int;
                            let di = d as int;
                            assert(li * (t1 as int) + (li - di) > u128::MAX) by (nonlinear_arith)
                                requires
                                    li * (t1 as int) > u128::MAX,
                                    0 <= di < li,
                            ;
                        }
                    },
                    Some(m) => {
                        match m.checked_add(la - da) {
                            None => {
                                saturated = true;
                            },
                            Some(vv) => {
                                value = vv;
                            },
                        }
                    },
                }
            }
        }
        proof {
            assert(lists.skip(0) =~= lists);
            assert(cursors.skip(0) =~= cursors);
        }
        if saturated {
            u128::MAX
        } else {
            value
        }
    }
}

impl Petnames {
    /// The non-repeating enumerator over this store for names of `words`
    /// words: every combination exactly once, in shuffled order.
    pub fn iter_non_repeating(&self, rng: &mut rand::rngs::StdRng, words: u8) -> (r: NonRepeating)
        ensures
            r.wf(),
            r.exhausted <==> (words == 0 || self@.nouns.len() == 0 || (words >= 2
                && self@.adjectives.len() == 0) || (words >= 3 && self@.adverbs.len() == 0)),
            !r.exhausted ==> {
                &&& r.lists().len() == words as int
                &&& r.counter() == 0
                &&& forall|j: int|
                    0 <= j < words as int ==> (#[trigger] r.lists()[j]).to_multiset() == list_of(
                        self@,
                        role_seq(words as nat)[j],
                    ).to_multiset()
                &&& forall|j: int|
                    0 <= j < words as int ==> (#[trigger] r.lists()[j]).len() == list_of(
                        self@,
                        role_seq(words as nat)[j],
                    ).len()
            },
    {
        NonRepeating::new(self, rng, words)
    }
}

/// Whether a role visited for a name of `words` words has an empty list.
fn self_list_empty(petnames: &Petnames, words: u8) -> (r: bool)
    ensures
        r == (petnames@.nouns.len() == 0 || (words >= 2 && petnames@.adjectives.len() == 0) || (
        words >= 3 && petnames@.adverbs.len() == 0)),
{
    petnames.nouns.len() == 0 || (words >= 2 && petnames.adjectives.len() == 0) || (words >= 3
        && petnames.adverbs.len() == 0)
}

/// Which role the sequence visits at each position.
proof fn lemma_role_kind(n: nat, j: int)
    requires
        n >= 1,
        0 <= j < n,
    ensures
        role_seq(n)[j] == List::Noun ==> j == n - 1,
        role_seq(n)[j] == List::Adjective ==> n >= 2 && j == n - 2,
        role_seq(n)[j] == List::Adverb ==> n >= 3 && j < n - 2,
{
    crate::roles::lemma_role_seq_len(n);
    if n == 1 {
        assert(role_seq(n)[j] == List::Noun);
    } else {
        if j < n - 2 {
            assert(role_seq(n)[j] == List::Adverb);
        } else if j == n - 2 {
            assert(role_seq(n)[j] == List::Adjective);
        } else {
            assert(role_seq(n)[j] == List::Noun);
        }
    }
}

} // verus!
