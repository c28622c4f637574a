//! Which neighbours of a patch stay eligible for a weighted choice once an
//! exclusion list has been applied.
use vstd::prelude::*;

verus! {

/// The exclusion list as a sequence, when there is one.
pub open spec fn exclusion_view(exclude: Option<&Vec<usize>>) -> Option<Seq<usize>> {
    match exclude {
        Some(ex) => Some(ex@),
        None => None,
    }
}

/// Patch ids are numbered from 1 while the exclusion list names patches from
/// 0: the neighbour at position `i` is excluded when `p[i] - 1` is listed.
pub open spec fn is_kept(p: Seq<usize>, exclude: Option<Seq<usize>>, i: int) -> bool {
    match exclude {
        None => true,
        Some(ex) => !ex.contains((p[i] - 1) as usize),
    }
}

/// What the selection reads of the neighbour list: one patch id for each of the
/// first `n` positions and, when there is an exclusion list, ids of at least 1.
pub open spec fn selection_defined(p: Seq<usize>, n: nat, exclude: Option<Seq<usize>>) -> bool {
    &&& n <= p.len()
    &&& exclude is Some ==> forall|i: int| 0 <= i < n ==> #[trigger] p[i] >= 1
}

/// `kept` lists, in increasing order, exactly the positions below `n` whose
/// neighbour is not excluded.
pub open spec fn is_kept_selection(p: Seq<usize>, n: nat, exclude: Option<Seq<usize>>, kept: Seq<usize>) -> bool {
    &&& forall|k: int| 0 <= k < kept.len() ==> #[trigger] kept[k] < n && is_kept(p, exclude, kept[k] as int)
    &&& forall|j: int, k: int| 0 <= j < k < kept.len() ==> kept[j] < kept[k]
    &&& forall|i: int| 0 <= i < n && is_kept(p, exclude, i) ==> #[trigger] kept.contains(i as usize)
}

/// Whether `value` occurs in `list`.
fn list_contains(list: &Vec<usize>, value: usize) -> (found: bool)
    ensures
        found == list@.contains(value),
{
    let mut i: usize = 0;
    while i < list.len()
        invariant
            i <= list.len(),
            forall|k: int| 0 <= k < i ==> list@[k] != value,
        decreases list.len() - i,
    {
        if list[i] == value {
            return true;
        }
        i = i + 1;
    }
    false
}

/// The positions, among the first `n_weights` neighbours in `p`, that stay
/// eligible: all of them without an exclusion list, otherwise those whose
/// patch id minus one is not in `neighbours_to_exclude`. They come in
/// increasing order; with no weights the list is empty.
pub fn kept_neighbours(
    p: &Vec<usize>,
    n_weights: usize,
    neighbours_to_exclude: Option<&Vec<usize>>,
) -> (kept: Vec<usize>)
    requires
        selection_defined(p@, n_weights as nat, exclusion_view(neighbours_to_exclude)),
    ensures
        is_kept_selection(p@, n_weights as nat, exclusion_view(neighbours_to_exclude), kept@),
        n_weights == 0 ==> kept@.len() == 0,
        neighbours_to_exclude is None ==> kept@ =~= Seq::new(n_weights as nat, |i: int| i as usize),
{
    let ghost ex = exclusion_view(neighbours_to_exclude);
    let mut kept: Vec<usize> = Vec::new();
    let mut i: usize = 0;
    while i < n_weights
        invariant
            i <= n_weights,
            ex == exclusion_view(neighbours_to_exclude),
            selection_defined(p@, n_weights as nat, ex),
            is_kept_selection(p@, i as nat, ex, kept@),
            kept.len() <= i,
            forall|k: int| 0 <= k < kept.len() ==> #[trigger] kept@[k] < i,
            neighbours_to_exclude is None ==> kept@ =~= Seq::new(i as nat, |j: int| j as usize),
        decreases n_weights - i,
    {
        let keep = match neighbours_to_exclude {
            None => true,
            Some(ex_list) => !list_contains(ex_list, p[i] - 1),
        };
        let ghost before = kept@;
        if keep {
            kept.push(i);
            assert(kept@ == before.push(i));
        }
        assert forall|j: int| 0 <= j < i + 1 && is_kept(p@, ex, j)
            implies #[trigger] kept@.contains(j as usize) by {
            if j < i {
                assert(before.contains(j as usize));
                let w = choose|w: int| 0 <= w < before.len() && before[w] == j as usize;
                assert(kept@[w] == j as usize);
            } else {
                assert(kept@[kept@.len() - 1] == i);
            }
        }
        i = i + 1;
    }
    kept
}

} // verus!
