//! The word store: three word lists, one per role, and their cardinality.

use vstd::prelude::*;

use crate::roles::List;
use crate::roles::Lists;
use crate::roles::role_seq;

verus! {

use vstd::arithmetic::power::pow;

/// The words of a list, as sequences of characters.
pub open spec fn word_views(ws: Seq<String>) -> Seq<Seq<char>> {
    Seq::new(ws.len(), |i: int| ws[i]@)
}

/// Whether a character counts as word-separating whitespace.
pub uninterp spec fn is_space_char(c: char) -> bool;

/// Relies on `char::is_whitespace`: whether the character has the Unicode
/// `White_Space` property, a function of the character alone.
#[verifier::external_body]
fn is_space(c: char) -> (r: bool)
    ensures
        r == is_space_char(c),
{
    c.is_whitespace()
}

/// Length of the leading run of non-whitespace characters.
pub open spec fn word_end(s: Seq<char>) -> nat
    decreases s.len(),
{
    if s.len() == 0 || is_space_char(s[0]) {
        0
    } else {
        1 + word_end(s.skip(1))
    }
}

pub proof fn lemma_word_end_le(s: Seq<char>)
    ensures
        word_end(s) <= s.len(),
    decreases s.len(),
{
    if s.len() == 0 || is_space_char(s[0]) {
    } else {
        lemma_word_end_le(s.skip(1));
    }
}

/// The whitespace-separated words of a character sequence, in order.
pub open spec fn split_whitespace_spec(s: Seq<char>) -> Seq<Seq<char>>
    decreases s.len(),
    via split_whitespace_spec_decreases
{
    if s.len() == 0 {
        Seq::empty()
    } else if is_space_char(s[0]) {
        split_whitespace_spec(s.skip(1))
    } else {
        seq![s.take(word_end(s) as int)] + split_whitespace_spec(s.skip(word_end(s) as int))
    }
}

#[via_fn]
proof fn split_whitespace_spec_decreases(s: Seq<char>) {
    lemma_word_end_le(s);
}

/// `word_end` is the first index holding whitespace (or the length).
proof fn lemma_word_end_at(t: Seq<char>, m: nat)
    requires
        m <= t.len(),
        forall|p: int| 0 <= p < m ==> !is_space_char(t[p]),
        m == t.len() || is_space_char(t[m as int]),
    ensures
        word_end(t) == m,
    decreases m,
{
    if m == 0 {
    } else {
        assert(!is_space_char(t[0]));
        lemma_word_end_at(t.skip(1), (m - 1) as nat);
    }
}

/// Split a string on whitespace into its words.
fn split_whitespace(s: &str) -> (r: Vec<String>)
    ensures
        word_views(r@) == split_whitespace_spec(s@),
{
    let n = s.unicode_len();
    let mut out: Vec<String> = Vec::new();
    let mut i: usize = 0;
    proof {
        assert(s@.skip(0) =~= s@);
        assert(word_views(out@) + split_whitespace_spec(s@) =~= split_whitespace_spec(s@));
    }
    while i < n
        invariant
            n == s@.len(),
            i <= n,
            split_whitespace_spec(s@) == word_views(out@) + split_whitespace_spec(
                s@.skip(i as int),
            ),
        decreases n - i,
    {
        let c = s.get_char(i);
        if is_space(c) {
            proof {
                assert(s@.skip(i as int).skip(1) =~= s@.skip(i + 1));
            }
            i = i + 1;
        } else {
            let ghost t = s@.skip(i as int);
            let mut j = i + 1;
            while j < n && !is_space(s.get_char(j))
                invariant
                    n == s@.len(),
                    i < j <= n,
                    t == s@.skip(i as int),
                    forall|p: int| i <= p < j ==> !is_space_char(s@[p]),
                decreases n - j,
            {
                j = j + 1;
            }
            proof {
                assert(forall|p: int| 0 <= p < j - i ==> t[p] == s@[p + i]);
                lemma_word_end_at(t, (j - i) as nat);
                assert(t.take((j - i) as int) =~= s@.subrange(i as int, j as int));
                assert(t.skip((j - i) as int) =~= s@.skip(j as int));
            }
            let word = s.substring_char(i, j);
            let owned: String = word.to_owned();
            proof {
                assert(word_views(out@.push(owned)) =~= word_views(out@) + seq![t.take(
                    (j - i) as int,
                )]);
                assert(split_whitespace_spec(t) == seq![t.take((j - i) as int)]
                    + split_whitespace_spec(t.skip((j - i) as int)));
            }
            out.push(owned);
            i = j;
        }
    }
    proof {
        assert(s@.skip(n as int) =~= Seq::<char>::empty());
        assert(word_views(out@) + split_whitespace_spec(s@.skip(n as int)) =~= word_views(out@));
    }
    out
}

/// The three word lists of a store, as character sequences.
#[verifier::ext_equal]
pub struct WordsView {
    pub adjectives: Seq<Seq<char>>,
    pub adverbs: Seq<Seq<char>>,
    pub nouns: Seq<Seq<char>>,
}

/// The word list a role draws from.
pub open spec fn list_of(v: WordsView, role: List) -> Seq<Seq<char>> {
    match role {
        List::Adverb => v.adverbs,
        List::Adjective => v.adjectives,
        List::Noun => v.nouns,
    }
}

/// Word lists and the logic to combine them into names.
///
/// A name of `n` words contains, in order: `n - 2` adverbs when `n >= 2`
/// (otherwise none), one adjective when `n >= 2`, and one noun when `n >= 1`.
#[derive(Debug, PartialEq, Eq)]
pub struct Petnames {
    pub adjectives: Vec<String>,
    pub adverbs: Vec<String>,
    pub nouns: Vec<String>,
}

impl View for Petnames {
    type V = WordsView;

    open spec fn view(&self) -> WordsView {
        WordsView {
            adjectives: word_views(self.adjectives@),
            adverbs: word_views(self.adverbs@),
            nouns: word_views(self.nouns@),
        }
    }
}

/// Copy a word list, word for word.
pub(crate) fn clone_words(ws: &Vec<String>) -> (r: Vec<String>)
    ensures
        word_views(r@) == word_views(ws@),
{
    let mut out: Vec<String> = Vec::new();
    for k in 0..ws.len()
        invariant
            out@.len() == k,
            forall|j: int| 0 <= j < k ==> out@[j]@ == ws@[j]@,
    {
        out.push(ws[k].clone());
    }
    proof {
        assert(word_views(out@) =~= word_views(ws@));
    }
    out
}

impl Clone for Petnames {
    fn clone(&self) -> (r: Self)
        ensures
            r@ == self@,
    {
        Petnames {
            adjectives: clone_words(&self.adjectives),
            adverbs: clone_words(&self.adverbs),
            nouns: clone_words(&self.nouns),
        }
    }
}

/// The elements of `s` marked `true` in `keep`, in order.
pub open spec fn mask_filter<A>(s: Seq<A>, keep: Seq<bool>) -> Seq<A>
    decreases s.len(),
{
    if s.len() == 0 {
        Seq::empty()
    } else {
        let init = mask_filter(s.drop_last(), keep.drop_last());
        if keep.len() == s.len() && keep.last() {
            init.push(s.last())
        } else {
            init
        }
    }
}

/// A fully `false` mask keeps nothing.
pub proof fn lemma_mask_filter_all_false<A>(s: Seq<A>, keep: Seq<bool>)
    requires
        keep.len() == s.len(),
        forall|j: int| 0 <= j < keep.len() ==> !keep[j],
    ensures
        mask_filter(s, keep).len() == 0,
    decreases s.len(),
{
    if s.len() > 0 {
        lemma_mask_filter_all_false(s.drop_last(), keep.drop_last());
    }
}

/// A non-negative integer clamped to the range of `u128`.
pub open spec fn sat_cap(x: int) -> u128 {
    if x > u128::MAX {
        u128::MAX
    } else {
        x as u128
    }
}

/// Saturating product of two counts.
pub open spec fn sat_mul128(a: u128, b: u128) -> u128 {
    sat_cap(a * b)
}

/// Saturating multiplication.
fn sat_mul(a: u128, b: u128) -> (r: u128)
    ensures
        r == sat_mul128(a, b),
{
    match a.checked_mul(b) {
        Some(v) => v,
        None => u128::MAX,
    }
}

/// Fold the saturating product of the visited lists' lengths over `acc`.
pub open spec fn sat_card_from(v: WordsView, roles: Seq<List>, acc: u128) -> u128
    decreases roles.len(),
{
    if roles.len() == 0 {
        acc
    } else {
        sat_card_from(
            v,
            roles.skip(1),
            sat_mul128(acc, sat_cap(list_of(v, roles[0]).len() as int)),
        )
    }
}

/// The count of distinct names of `n` words producible from the store `v`,
/// clamped at `u128::MAX`. An empty product (`n == 0`) is 0 by convention.
pub open spec fn cardinality_spec(v: WordsView, n: nat) -> u128 {
    if n == 0 {
        0
    } else {
        sat_card_from(v, role_seq(n), 1)
    }
}

/// The exact (unclamped) product of the visited lists' lengths.
pub open spec fn prod_of(v: WordsView, roles: Seq<List>) -> int
    decreases roles.len(),
{
    if roles.len() == 0 {
        1
    } else {
        list_of(v, roles[0]).len() * prod_of(v, roles.skip(1))
    }
}

proof fn lemma_prod_of_nonneg(v: WordsView, roles: Seq<List>)
    ensures
        prod_of(v, roles) >= 0,
    decreases roles.len(),
{
    if roles.len() > 0 {
        lemma_prod_of_nonneg(v, roles.skip(1));
        assert(list_of(v, roles[0]).len() * prod_of(v, roles.skip(1)) >= 0) by (nonlinear_arith)
            requires
                list_of(v, roles[0]).len() >= 0,
                prod_of(v, roles.skip(1)) >= 0,
        ;
    }
}

/// Whether each list is small enough for its length to be a `u128`; true of
/// the view of every store an executing program can hold.
pub open spec fn len_bounded(v: WordsView) -> bool {
    v.adjectives.len() <= u128::MAX && v.adverbs.len() <= u128::MAX && v.nouns.len() <= u128::MAX
}

/// The saturating fold equals the exact product, clamped once at the end.
pub proof fn lemma_sat_card_from_exact(v: WordsView, roles: Seq<List>, acc: u128)
    requires
        len_bounded(v),
    ensures
        sat_card_from(v, roles, acc) == sat_cap(acc * prod_of(v, roles)),
    decreases roles.len(),
{
    if roles.len() == 0 {
    } else {
        let l = list_of(v, roles[0]).len() as int;
        let acc2 = sat_mul128(acc, sat_cap(l));
        let p = prod_of(v, roles.skip(1));
        lemma_prod_of_nonneg(v, roles.skip(1));
        lemma_sat_card_from_exact(v, roles.skip(1), acc2);
        assert(sat_cap(l) == l);
        if acc * l > u128::MAX {
            assert(acc2 == u128::MAX);
            if p == 0 {
                assert(sat_cap(acc2 * p) == 0);
                assert(acc * l * p == 0) by (nonlinear_arith)
                    requires
                        p == 0,
                ;
            } else {
                assert(acc2 * p >= u128::MAX) by (nonlinear_arith)
                    requires
                        acc2 == u128::MAX,
                        p >= 1,
                ;
                assert(acc * l * p > u128::MAX) by (nonlinear_arith)
                    requires
                        acc * l > u128::MAX,
                        p >= 1,
                ;
                assert(sat_cap(acc2 * p) == u128::MAX);
            }
        } else {
            assert(acc2 == acc * l);
            assert(acc2 * p == acc * l * p) by (nonlinear_arith)
                requires
                    acc2 == acc * l,
            ;
        }
        assert(acc * prod_of(v, roles) == acc * l * p) by (nonlinear_arith)
            requires
                prod_of(v, roles) == l * p,
        ;
    }
}

/// The exact product over the role sequence, in closed form.
proof fn lemma_prod_of_role_seq(v: WordsView, n: nat)
    requires
        n >= 1,
    ensures
        n == 1 ==> prod_of(v, role_seq(n)) == v.nouns.len(),
        n == 2 ==> prod_of(v, role_seq(n)) == v.adjectives.len() * v.nouns.len(),
        n >= 3 ==> prod_of(v, role_seq(n)) == pow(v.adverbs.len() as int, (n - 2) as nat)
            * v.adjectives.len() * v.nouns.len(),
    decreases n,
{
    reveal(pow);
    let j = v.adjectives.len() as int;
    let m = v.nouns.len() as int;
    let a = v.adverbs.len() as int;
    if n == 1 {
        assert(role_seq(1).skip(1) =~= Seq::<List>::empty());
        assert(prod_of(v, role_seq(1)) == m * prod_of(v, role_seq(1).skip(1)));
    } else if n == 2 {
        assert(role_seq(2) =~= seq![List::Adjective, List::Noun]);
        assert(role_seq(2).skip(1) =~= role_seq(1));
        lemma_prod_of_role_seq(v, 1);
    } else {
        lemma_prod_of_role_seq(v, (n - 1) as nat);
        assert(role_seq(n)[0] == List::Adverb);
        assert(role_seq(n).skip(1) =~= role_seq((n - 1) as nat));
        let rest = prod_of(v, role_seq((n - 1) as nat));
        assert(prod_of(v, role_seq(n)) == a * rest);
        if n == 3 {
            assert(rest == j * m);
            vstd::arithmetic::power::lemma_pow1(a);
            assert(a * (j * m) == a * j * m) by (nonlinear_arith);
            assert(prod_of(v, role_seq(n)) == pow(a, (n - 2) as nat) * j * m);
        } else {
            let p = pow(a, (n - 3) as nat);
            assert(rest == p * j * m);
            assert(pow(a, (n - 2) as nat) == a * pow(a, ((n - 2) as nat - 1) as nat));
            assert(((n - 2) as nat - 1) as nat == (n - 3) as nat);
            assert(a * (p * j * m) == (a * p) * j * m) by (nonlinear_arith);
            assert(prod_of(v, role_seq(n)) == pow(a, (n - 2) as nat) * j * m);
        }
    }
}

/// The cardinality of a store, in closed form: for `n >= 3` it is
/// `|adverbs|^(n-2) * |adjectives| * |nouns|`, clamped at `u128::MAX`; for
/// `n == 2` it is `|adjectives| * |nouns|` clamped; for `n == 1` it is
/// `|nouns|`; and for `n == 0` it is 0 by convention.
pub proof fn lemma_cardinality_closed_form(v: WordsView, n: nat)
    requires
        len_bounded(v),
    ensures
        cardinality_spec(v, 0) == 0,
        n == 1 ==> cardinality_spec(v, n) == v.nouns.len(),
        n == 2 ==> cardinality_spec(v, n) == sat_cap(v.adjectives.len() * v.nouns.len() as int),
        n >= 3 ==> cardinality_spec(v, n) == sat_cap(
            pow(v.adverbs.len() as int, (n - 2) as nat) * v.adjectives.len() * v.nouns.len(),
        ),
{
    if n >= 1 {
        lemma_sat_card_from_exact(v, role_seq(n), 1);
        lemma_prod_of_role_seq(v, n);
    }
}

/// A role whose list is empty forces the cardinality of every length that
/// visits the role down to zero.
pub proof fn lemma_empty_role_zero_cardinality(v: WordsView, n: nat)
    requires
        len_bounded(v),
    ensures
        v.nouns.len() == 0 && n >= 1 ==> cardinality_spec(v, n) == 0,
        v.adjectives.len() == 0 && n >= 2 ==> cardinality_spec(v, n) == 0,
        v.adverbs.len() == 0 && n >= 3 ==> cardinality_spec(v, n) == 0,
{
    lemma_cardinality_closed_form(v, n);
    if n >= 3 {
        let a = v.adverbs.len() as int;
        let j = v.adjectives.len() as int;
        let m = v.nouns.len() as int;
        if m == 0 || j == 0 {
            assert(pow(a, (n - 2) as nat) * j * m == 0) by (nonlinear_arith)
                requires
                    j == 0 || m == 0,
            ;
        }
        if a == 0 {
            vstd::arithmetic::power::lemma0_pow((n - 2) as nat);
            assert(pow(a, (n - 2) as nat) * j * m == 0) by (nonlinear_arith)
                requires
                    pow(a, (n - 2) as nat) == 0,
            ;
        }
    }
}

/// What `retain_words` and the retain operations guarantee: some mask agreeing
/// with the predicate's postcondition selects the surviving words.
pub open spec fn retained<F: Fn(&String) -> bool>(
    predicate: F,
    before: Seq<String>,
    after: Seq<Seq<char>>,
) -> bool {
    exists|keep: Seq<bool>|
        {
            &&& keep.len() == before.len()
            &&& after == mask_filter(word_views(before), keep)
            &&& forall|j: int|
                0 <= j < keep.len() ==> #[trigger] call_ensures(predicate, (&before[j],), keep[j])
        }
}

/// A predicate that rejects every word leaves nothing behind: retaining with
/// it empties the list, so every length that visits the list has cardinality
/// zero (see `lemma_empty_role_zero_cardinality`) and the sampling generator
/// draws no word for the role (see `lemma_empty_role_omitted`).
pub proof fn lemma_retain_all_rejected<F: Fn(&String) -> bool>(
    predicate: F,
    before: Seq<String>,
    after: Seq<Seq<char>>,
)
    requires
        retained(predicate, before, after),
        forall|w: &String, b: bool| #[trigger] call_ensures(predicate, (w,), b) ==> !b,
    ensures
        after.len() == 0,
{
    let keep = choose|keep: Seq<bool>|
        {
            &&& keep.len() == before.len()
            &&& after == mask_filter(word_views(before), keep)
            &&& forall|j: int|
                0 <= j < keep.len() ==> #[trigger] call_ensures(predicate, (&before[j],), keep[j])
        };
    assert forall|j: int| 0 <= j < keep.len() implies !keep[j] by {
        assert(call_ensures(predicate, (&before[j],), keep[j]));
    }
    lemma_mask_filter_all_false(word_views(before), keep);
}

/// Keep the words of one list that satisfy the predicate, in order, handing
/// the predicate back for further use.
fn retain_words<F: Fn(&String) -> bool>(predicate: F, list: &mut Vec<String>) -> (r: F)
    requires
        forall|w: &String| #[trigger] call_requires(predicate, (w,)),
    ensures
        r == predicate,
        retained(predicate, old(list)@, word_views(final(list)@)),
{
    let ghost orig = list@;
    let mut out: Vec<String> = Vec::new();
    let ghost mut keep: Seq<bool> = Seq::empty();
    for k in 0..list.len()
        invariant
            list@ == orig,
            keep.len() == k,
            word_views(out@) == mask_filter(word_views(orig.take(k as int)), keep),
            forall|j: int|
                0 <= j < k ==> #[trigger] call_ensures(predicate, (&orig[j],), keep[j]),
            forall|w: &String| #[trigger] call_requires(predicate, (w,)),
    {
        let verdict = predicate(&list[k]);
        let ghost keep_before = keep;
        proof {
            keep = keep.push(verdict);
            assert(word_views(orig.take(k + 1)).drop_last() =~= word_views(orig.take(k as int)));
            assert(keep.drop_last() =~= keep_before);
        }
        if verdict {
            let word = list[k].clone();
            out.push(word);
            proof {
                assert(word_views(out@).drop_last() =~= mask_filter(
                    word_views(orig.take(k as int)),
                    keep_before,
                ));
                assert(word_views(out@) =~= mask_filter(word_views(orig.take(k + 1)), keep));
            }
        } else {
            proof {
                assert(word_views(out@) =~= mask_filter(word_views(orig.take(k + 1)), keep));
            }
        }
    }
    proof {
        assert(orig.take(orig.len() as int) =~= orig);
    }
    *list = out;
    proof {
        assert(retained(predicate, orig, word_views(list@)));
    }
    predicate
}

/// Which built-in word list size to use.
#[derive(Clone, Copy, Debug, PartialEq, Eq, PartialOrd, Ord)]
pub enum WordList {
    Small,
    Medium,
    Large,
}

impl WordList {
    /// The view of the built-in store of this size.
    pub open spec fn store_view(self) -> WordsView {
        match self {
            WordList::Small => crate::words::small_view(),
            WordList::Medium => crate::words::medium_view(),
            WordList::Large => crate::words::large_view(),
        }
    }

    /// The stable name of the size.
    pub fn label(&self) -> (r: &'static str)
        ensures
            r@ == match self {
                WordList::Small => "small"@,
                WordList::Medium => "medium"@,
                WordList::Large => "large"@,
            },
    {
        match self {
            WordList::Small => "small",
            WordList::Medium => "medium",
            WordList::Large => "large",
        }
    }

    /// The built-in store of this size.
    pub fn select(&self) -> (r: Petnames)
        ensures
            r@ == self.store_view(),
    {
        match self {
            WordList::Small => Petnames::small(),
            WordList::Medium => Petnames::medium(),
            WordList::Large => Petnames::large(),
        }
    }
}

impl Petnames {
    /// The store built from the small built-in word lists.
    pub fn small() -> (r: Petnames)
        ensures
            r@ == crate::words::small_view(),
    {
        let r = Petnames::new(
            crate::words::SMALL_ADJECTIVES,
            crate::words::SMALL_ADVERBS,
            crate::words::SMALL_NOUNS,
        );
        proof {
            assert(r@ =~= crate::words::small_view());
        }
        r
    }

    /// The store built from the medium built-in word lists.
    pub fn medium() -> (r: Petnames)
        ensures
            r@ == crate::words::medium_view(),
    {
        let r = Petnames::new(
            crate::words::MEDIUM_ADJECTIVES,
            crate::words::MEDIUM_ADVERBS,
            crate::words::MEDIUM_NOUNS,
        );
        proof {
            assert(r@ =~= crate::words::medium_view());
        }
        r
    }

    /// The store built from the large built-in word lists.
    pub fn large() -> (r: Petnames)
        ensures
            r@ == crate::words::large_view(),
    {
        let r = Petnames::new(
            crate::words::LARGE_ADJECTIVES,
            crate::words::LARGE_ADVERBS,
            crate::words::LARGE_NOUNS,
        );
        proof {
            assert(r@ =~= crate::words::large_view());
        }
        r
    }
}

impl Default for Petnames {
    /// The default store: the medium built-in word lists.
    fn default() -> (r: Self)
        ensures
            r@ == crate::words::medium_view(),
    {
        Petnames::medium()
    }
}

impl Petnames {
    /// Build a store from one text per role, splitting each on whitespace.
    ///
    /// Never fails: empty text yields an empty list.
    pub fn new(adjectives: &str, adverbs: &str, nouns: &str) -> (r: Petnames)
        ensures
            r@.adjectives == split_whitespace_spec(adjectives@),
            r@.adverbs == split_whitespace_spec(adverbs@),
            r@.nouns == split_whitespace_spec(nouns@),
    {
        Petnames {
            adjectives: split_whitespace(adjectives),
            adverbs: split_whitespace(adverbs),
            nouns: split_whitespace(nouns),
        }
    }

    /// The exact count of distinct names of `words` words this store can
    /// produce, clamped at `u128::MAX` instead of overflowing.
    ///
    /// An empty requested length yields 0 by convention, and so does any
    /// visited role whose list is empty.
    pub fn cardinality(&self, words: u8) -> (r: u128)
        ensures
            r == cardinality_spec(self@, words as nat),
    {
        if words == 0 {
            return 0;
        }
        let mut lists = Lists::new(words);
        let mut acc: u128 = 1;
        proof {
            crate::roles::lemma_role_seq_len(words as nat);
        }
        for k in 0..(words as usize)
            invariant
                lists@.len() == words - k,
                sat_card_from(self@, lists@, acc) == cardinality_spec(self@, words as nat),
        {
            let ghost lists_before = lists@;
            let role = lists.next().unwrap();
            let len: usize = match role {
                List::Adverb => self.adverbs.len(),
                List::Adjective => self.adjectives.len(),
                List::Noun => self.nouns.len(),
            };
            proof {
                assert(list_of(self@, role).len() == len);
            }
            acc = sat_mul(acc, len as u128);
        }
        acc
    }

    /// Keep, in every list, only the words matching the predicate.
    ///
    /// The predicate is applied to the adjectives, then the adverbs, then the
    /// nouns. Lists may end up empty; that only shows in the cardinality and
    /// in generated names.
    pub fn retain<F: Fn(&String) -> bool>(&mut self, predicate: F)
        requires
            forall|w: &String| #[trigger] call_requires(predicate, (w,)),
        ensures
            retained(predicate, old(self).adjectives@, final(self)@.adjectives),
            retained(predicate, old(self).adverbs@, final(self)@.adverbs),
            retained(predicate, old(self).nouns@, final(self)@.nouns),
    {
        let predicate = retain_words(predicate, &mut self.adjectives);
        let predicate = retain_words(predicate, &mut self.adverbs);
        let _ = retain_words(predicate, &mut self.nouns);
    }
}

} // verus!
