use vstd::prelude::*;

verus! {

broadcast use vstd::seq_lib::group_to_multiset_ensures;

/// Number of distinct card values; each is dealt twice.
pub const PAIR_COUNT: usize = 8;

/// Number of cards on the board.
pub const DECK_SIZE: usize = 16;

/// A deck holds exactly two cards of each value below `PAIR_COUNT`, and no
/// other card.
pub open spec fn is_valid_deck(s: Seq<usize>) -> bool {
    &&& s.len() == DECK_SIZE
    &&& forall|v: usize| #[trigger]
        s.to_multiset().count(v) == if v < PAIR_COUNT {
            2nat
        } else {
            0nat
        }
}

/// The unshuffled deck `[0, 0, 1, 1, ..., 7, 7]`.
pub open spec fn ordered_deck_spec() -> Seq<usize> {
    Seq::new(DECK_SIZE as nat, |i: int| (i / 2) as usize)
}

/// `s` with the entries at `i` and `j` exchanged.
pub open spec fn swap_spec(s: Seq<usize>, i: int, j: int) -> Seq<usize> {
    s.update(i, s[j]).update(j, s[i])
}

/// The index that step `step` of the shuffle exchanges with position `i`:
/// the draw reduced below `i + 1`, or `i` itself once the draws run out.
pub open spec fn pick_spec(draws: Seq<usize>, step: int, i: int) -> int {
    if 0 <= step < draws.len() {
        draws[step] as int % (i + 1)
    } else {
        i
    }
}

/// The Fisher-Yates passes over positions `i` down to 1 of `s`; the pass over
/// position `p` consumes the draw numbered `s.len() - 1 - p`.
pub open spec fn shuffle_from(s: Seq<usize>, draws: Seq<usize>, i: int) -> Seq<usize>
    decreases i,
{
    if i <= 0 {
        s
    } else {
        let j = pick_spec(draws, s.len() - 1 - i, i);
        shuffle_from(swap_spec(s, i, j), draws, i - 1)
    }
}

/// The Fisher-Yates shuffle of `s` driven by `draws`.
pub open spec fn shuffle_spec(s: Seq<usize>, draws: Seq<usize>) -> Seq<usize> {
    shuffle_from(s, draws, s.len() - 1)
}

proof fn lemma_swap_multiset(s: Seq<usize>, i: int, j: int)
    requires
        0 <= i < s.len(),
        0 <= j < s.len(),
    ensures
        swap_spec(s, i, j).to_multiset() == s.to_multiset(),
        swap_spec(s, i, j).len() == s.len(),
{
    broadcast use vstd::seq_lib::to_multiset_update;

    let a = s[i];
    let b = s[j];
    let t = s.update(i, b);
    assert(t.to_multiset() == s.to_multiset().insert(b).remove(a));
    assert(t[j] == if i == j { b } else { b });
    assert(swap_spec(s, i, j).to_multiset() == t.to_multiset().insert(a).remove(b));
    assert(s.to_multiset().count(a) > 0);
    assert(swap_spec(s, i, j).to_multiset() =~= s.to_multiset());
}

proof fn lemma_shuffle_from_multiset(s: Seq<usize>, draws: Seq<usize>, i: int)
    requires
        i < s.len(),
    ensures
        shuffle_from(s, draws, i).to_multiset() == s.to_multiset(),
        shuffle_from(s, draws, i).len() == s.len(),
    decreases i,
{
    if i > 0 {
        let j = pick_spec(draws, s.len() - 1 - i, i);
        lemma_swap_multiset(s, i, j);
        lemma_shuffle_from_multiset(swap_spec(s, i, j), draws, i - 1);
    }
}

/// Every card of a valid deck has a value below `PAIR_COUNT`.
pub proof fn lemma_valid_deck_values(s: Seq<usize>)
    requires
        is_valid_deck(s),
    ensures
        forall|i: int| 0 <= i < s.len() ==> #[trigger] s[i] < PAIR_COUNT,
{
    assert forall|i: int| 0 <= i < s.len() implies #[trigger] s[i] < PAIR_COUNT by {
        assert(s.contains(s[i]));
        assert(s.to_multiset().count(s[i]) > 0);
    }
}

/// Builds the unshuffled deck `[0, 0, 1, 1, ..., 7, 7]`.
pub fn ordered_deck() -> (r: Vec<usize>)
    ensures
        r@ == ordered_deck_spec(),
        is_valid_deck(r@),
{
    let mut r: Vec<usize> = Vec::new();
    let mut v: usize = 0;
    while v < PAIR_COUNT
        invariant
            v <= PAIR_COUNT,
            r@.len() == 2 * v,
            forall|k: int| 0 <= k < r@.len() ==> #[trigger] r@[k] == (k / 2) as usize,
            forall|w: usize| #[trigger]
                r@.to_multiset().count(w) == if w < v {
                    2nat
                } else {
                    0nat
                },
        decreases PAIR_COUNT - v,
    {
        r.push(v);
        r.push(v);
        v = v + 1;
    }
    assert(r@ =~= ordered_deck_spec());
    r
}

/// Shuffles `deck` in place: for each position `i` from the last down to 1,
/// exchanges it with position `draws[k] % (i + 1)`, where `k` counts the
/// passes made before. Once the draws run out, the remaining positions stay.
pub fn shuffle_deck(deck: &mut Vec<usize>, draws: &Vec<usize>)
    ensures
        final(deck)@ == shuffle_spec(old(deck)@, draws@),
        final(deck)@.len() == old(deck)@.len(),
        final(deck)@.to_multiset() == old(deck)@.to_multiset(),
{
    proof {
        lemma_shuffle_from_multiset(old(deck)@, draws@, old(deck)@.len() - 1);
    }
    let n = deck.len();
    if n == 0 {
        return;
    }
    let mut i: usize = n - 1;
    while i > 0
        invariant
            deck@.len() == n,
            i < n,
            shuffle_from(deck@, draws@, i as int) == shuffle_spec(old(deck)@, draws@),
        decreases i,
    {
        let step: usize = n - 1 - i;
        let j: usize = if step < draws.len() {
            draws[step] % (i + 1)
        } else {
            i
        };
        let a = deck[i];
        let b = deck[j];
        deck.set(i, b);
        deck.set(j, a);
        i = i - 1;
    }
}

/// A fresh deck: the ordered deck shuffled by `draws`. Whatever the draws,
/// the result holds each value below `PAIR_COUNT` exactly twice.
pub fn generate_deck(draws: &Vec<usize>) -> (r: Vec<usize>)
    ensures
        r@ == shuffle_spec(ordered_deck_spec(), draws@),
        is_valid_deck(r@),
{
    let mut deck = ordered_deck();
    shuffle_deck(&mut deck, draws);
    deck
}

} // verus!
