//! Drawing several entries out of a list of indices with Rust's standard
//! generator, and what every such draw is known to satisfy.
use vstd::prelude::*;
use rand::rngs::StdRng;
use rand::seq::SliceRandom;

verus! {

broadcast use vstd::seq_lib::group_to_multiset_ensures;

/// `rand`'s standard generator, carried through opaquely: nothing of its
/// internal state is visible to the proofs.
#[verifier::external_type_specification]
#[verifier::external_body]
pub struct ExStdRng(StdRng);

/// `chosen` lists, in the order they were drawn, the entries of `from` at the
/// positions `idx`: every position lies inside `from` and no position is used
/// twice.
pub open spec fn is_selection(from: Seq<usize>, idx: Seq<int>, chosen: Seq<usize>) -> bool {
    &&& idx.len() == chosen.len()
    &&& forall|k: int| 0 <= k < idx.len() ==> 0 <= #[trigger] idx[k] < from.len()
    &&& forall|k: int| 0 <= k < idx.len() ==> #[trigger] chosen[k] == from[idx[k]]
    &&& forall|j: int, k: int| 0 <= j < k < idx.len() ==> idx[j] != idx[k]
}

/// The number of entries a draw of `amount` out of `len` entries returns.
pub open spec fn draw_size(len: nat, amount: nat) -> nat {
    if amount < len { amount } else { len }
}

/// A possible outcome of drawing `amount` entries out of `from` without putting
/// any back.
pub open spec fn is_draw_of(from: Seq<usize>, amount: nat, chosen: Seq<usize>) -> bool {
    &&& chosen.len() == draw_size(from.len(), amount)
    &&& exists|idx: Seq<int>| is_selection(from, idx, chosen)
}

/// A draw that takes `taken` entries leaves the generator where it was when
/// it takes none, and moves it on when it takes any.
pub open spec fn generator_moved(before: StdRng, after: StdRng, taken: nat) -> bool {
    &&& taken == 0 ==> after == before
    &&& taken > 0 ==> after != before
}

/// Calls `rand::seq::SliceRandom::choose_multiple` on `select_from` and
/// collects copies of the entries it yields. The source of rand 0.8 clamps
/// `amount` to the slice's length and yields the entries at
/// `index::sample(rng, len, amount)`, a list of that many distinct positions;
/// which positions come out depends on the generator's state, so of them only
/// that is claimed. Drawing no entry reads nothing from the generator
/// (`sample_floyd` runs no step, `sample_rejection` only builds its range);
/// drawing at least one reads at least one word, since every step of
/// `sample_floyd`, `sample_inplace` and `sample_rejection` samples a uniform
/// integer. Reading moves ChaCha's word position, which comes back to an
/// earlier value only after the full period of 2^68 words (rand_chacha), so
/// the generator then differs from what it was.
#[verifier::external_body]
pub(crate) fn slice_choose_multiple(rng: &mut StdRng, select_from: &Vec<usize>, amount: usize) -> (chosen: Vec<usize>)
    ensures
        is_draw_of(select_from@, amount as nat, chosen@),
        draw_size(select_from@.len(), amount as nat) == 0 ==> *final(rng) == *old(rng),
        draw_size(select_from@.len(), amount as nat) > 0 ==> *final(rng) != *old(rng),
{
    select_from.as_slice().choose_multiple(rng, amount).cloned().collect()
}

/// Every draw takes each value at most as often as `from` holds it.
pub proof fn lemma_selection_within_source(from: Seq<usize>, idx: Seq<int>, chosen: Seq<usize>)
    requires
        is_selection(from, idx, chosen),
    ensures
        chosen.to_multiset().subset_of(from.to_multiset()),
    decreases chosen.len(),
{
    broadcast use vstd::multiset::group_multiset_axioms;

    if chosen.len() > 0 {
        let last = chosen.len() - 1;
        let j = idx[last];
        let v = chosen[last];
        let from2 = from.remove(j);
        let idx2 = Seq::new(last as nat, |k: int| if idx[k] < j { idx[k] } else { idx[k] - 1 });
        let chosen2 = chosen.drop_last();
        assert forall|k: int| 0 <= k < idx2.len() implies #[trigger] chosen2[k] == from2[idx2[k]] by {
            assert(idx[k] != idx[last]);
        }
        assert forall|a: int, b: int| 0 <= a < b < idx2.len() implies idx2[a] != idx2[b] by {
            assert(idx[a] != idx[b]);
            assert(idx[a] != j && idx[b] != j);
        }
        assert forall|k: int| 0 <= k < idx2.len() implies 0 <= #[trigger] idx2[k] < from2.len() by {
            assert(idx[k] != idx[last]);
        }
        lemma_selection_within_source(from2, idx2, chosen2);
        assert(chosen == chosen2.push(v));
        assert(chosen.to_multiset() =~= chosen2.to_multiset().insert(v));
        assert(from2.to_multiset() == from.to_multiset().remove(v));
        assert forall|x: usize| chosen.to_multiset().count(x) <= from.to_multiset().count(x) by {
            assert(from.to_multiset().count(v) > 0) by {
                assert(from.contains(v)) by { assert(from[j] == v); }
            }
        }
    }
}

/// A draw whose size reaches the length of `from` returns every entry of
/// `from`, as often as `from` holds it: it is a reordering of `from`.
pub proof fn lemma_full_draw_is_reordering(from: Seq<usize>, amount: nat, chosen: Seq<usize>)
    requires
        is_draw_of(from, amount, chosen),
        from.len() <= amount,
    ensures
        chosen.to_multiset() =~= from.to_multiset(),
{
    broadcast use vstd::multiset::group_multiset_axioms;

    let idx = choose|idx: Seq<int>| is_selection(from, idx, chosen);
    lemma_selection_within_source(from, idx, chosen);
    let c = chosen.to_multiset();
    let f = from.to_multiset();
    let rest = f.sub(c);
    assert(rest.len() == 0);
    vstd::multiset::lemma_multiset_empty_len(rest);
    assert forall|x: usize| c.count(x) == f.count(x) by {
        assert(rest.count(x) == 0);
    }
}

/// A draw out of entries that are pairwise different returns pairwise
/// different entries.
pub proof fn lemma_draw_keeps_distinct(from: Seq<usize>, amount: nat, chosen: Seq<usize>)
    requires
        is_draw_of(from, amount, chosen),
        from.no_duplicates(),
    ensures
        chosen.no_duplicates(),
{
    let idx = choose|idx: Seq<int>| is_selection(from, idx, chosen);
    assert forall|a: int, b: int| 0 <= a < chosen.len() && 0 <= b < chosen.len() && a != b
        implies chosen[a] != chosen[b] by {
        if a < b {
            assert(idx[a] != idx[b]);
        } else {
            assert(idx[b] != idx[a]);
        }
    }
}

} // verus!
