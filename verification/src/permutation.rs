//! Permutations of `0..n` as lists of indices, and their application to an
//! array in place.

use vstd::prelude::*;
use vstd::set_lib::*;

verus! {

/// Whether `p` lists every index below its length exactly once.
pub open spec fn is_permutation(p: Seq<usize>) -> bool {
    &&& forall|i: int| 0 <= i < p.len() ==> #[trigger] p[i] < p.len()
    &&& forall|i: int, j: int| 0 <= i < j < p.len() ==> #[trigger] p[i] != #[trigger] p[j]
}

/// The entries of `s` in the order that `p` lists them: entry `k` of the
/// result is entry `p[k]` of `s`.
pub open spec fn gather<T>(s: Seq<T>, p: Seq<usize>) -> Seq<T> {
    Seq::new(p.len(), |k: int| s[p[k] as int])
}

/// The list `0, 1, .., n - 1`, which leaves every entry in its place.
pub open spec fn identity(n: nat) -> Seq<usize> {
    Seq::new(n, |k: int| k as usize)
}

/// A permutation reaches every index: each `v` below the length stands at some
/// place of `p`.
pub proof fn lemma_permutation_onto(p: Seq<usize>, v: usize)
    requires
        is_permutation(p),
        v < p.len(),
    ensures
        exists|i: int| 0 <= i < p.len() && p[i] == v,
{
    let n = p.len() as int;
    let q = Seq::new(p.len(), |i: int| p[i] as int);
    if !q.contains(v as int) {
        // The `n` entries of `p` are all different, yet all lie among the
        // `n - 1` indices other than `v`.
        q.unique_seq_to_set();
        lemma_int_range(0, n);
        lemma_len_subset(q.to_set(), set_int_range(0, n).remove(v as int));
    }
}

/// Calls `swap` of std's slices on a vector. Trusted: the two entries change
/// places and every other entry stays; std documents a panic for an index out
/// of bounds, which the precondition excludes.
#[verifier::external_body]
fn swap_entries<T>(v: &mut Vec<T>, a: usize, b: usize)
    requires
        a < old(v)@.len(),
        b < old(v)@.len(),
    ensures
        final(v)@ == old(v)@.update(a as int, old(v)@[b as int]).update(b as int, old(v)@[a as int]),
{
    v.swap(a, b);
}

/// Reorders `field` in place so that its entry `k` becomes the entry that stood
/// at `sorted_indices[k]`. Each cycle of the permutation is followed once, by
/// swaps, with the index list as the record of the places already settled.
pub fn rearrange_with_indices<T>(field: &mut Vec<T>, sorted_indices: Vec<usize>)
    requires
        is_permutation(sorted_indices@),
        sorted_indices@.len() == old(field)@.len(),
    ensures
        final(field)@ == gather(old(field)@, sorted_indices@),
{
    let ghost p: Seq<usize> = sorted_indices@;
    let ghost a: Seq<T> = field@;
    let mut settled: Vec<usize> = sorted_indices;
    let n: usize = field.len();
    let mut idx: usize = 0;
    while idx < n
        invariant
            idx <= n,
            n == a.len(),
            n == p.len(),
            n == field@.len(),
            n == settled@.len(),
            is_permutation(p),
            forall|k: int| 0 <= k < idx ==> #[trigger] settled@[k] == k,
            // A settled place holds its final entry.
            forall|k: int|
                #![trigger settled@[k]]
                0 <= k < n && settled@[k] == k ==> field@[k] == a[p[k] as int],
            // A place not yet settled is untouched, and so is the place from
            // which its entry is to come.
            forall|k: int|
                #![trigger settled@[k]]
                0 <= k < n && settled@[k] != k ==> settled@[k] == p[k] && field@[k] == a[k],
            forall|k: int, j: int|
                #![trigger settled@[k], settled@[j]]
                0 <= k < n && settled@[k] != k && p[k] == j ==> settled@[j] != j,
        decreases n - idx,
    {
        if settled[idx] != idx {
            let mut current_idx: usize = idx;
            let ghost mut unsettled: Set<int> = Set::new(
                |k: int| 0 <= k < n && settled@[k] != k,
            );
            proof {
                lemma_int_range(0, n as int);
                lemma_set_subset_finite(set_int_range(0, n as int), unsettled);
            }
            loop
                invariant_except_break
                    current_idx < n,
                    unsettled.finite(),
                    forall|k: int|
                        #![trigger settled@[k]]
                        #![trigger unsettled.contains(k)]
                        unsettled.contains(k) <==> 0 <= k < n && settled@[k] != k,
                    settled@[current_idx as int] != current_idx,
                    // The entry that stood at `idx` travels along the cycle and
                    // waits at `current_idx` for the place that closes it.
                    field@[current_idx as int] == a[idx as int],
                    current_idx == idx || settled@[idx as int] == idx,
                    forall|k: int|
                        #![trigger settled@[k]]
                        0 <= k < n && settled@[k] != k ==> {
                            &&& settled@[k] == p[k]
                            &&& (k != current_idx ==> field@[k] == a[k])
                            &&& (p[k] == current_idx ==> current_idx == idx)
                        },
                    forall|k: int, j: int|
                        #![trigger settled@[k], settled@[j]]
                        0 <= k < n && settled@[k] != k && p[k] == j ==> settled@[j] != j || j == idx,
                invariant
                    idx < n,
                    n == a.len(),
                    n == p.len(),
                    n == field@.len(),
                    n == settled@.len(),
                    is_permutation(p),
                    forall|k: int| 0 <= k < idx ==> #[trigger] settled@[k] == k,
                    forall|k: int|
                        #![trigger settled@[k]]
                        0 <= k < n && settled@[k] == k ==> field@[k] == a[p[k] as int],
                ensures
                    settled@[idx as int] == idx,
                    forall|k: int|
                        #![trigger settled@[k]]
                        0 <= k < n && settled@[k] != k ==> settled@[k] == p[k] && field@[k] == a[k],
                    forall|k: int, j: int|
                        #![trigger settled@[k], settled@[j]]
                        0 <= k < n && settled@[k] != k && p[k] == j ==> settled@[j] != j,
                decreases unsettled.len(),
            {
                let target_idx: usize = settled[current_idx];
                settled.set(current_idx, current_idx);
                proof {
                    unsettled = unsettled.remove(current_idx as int);
                }
                if settled[target_idx] == target_idx {
                    break;
                }
                swap_entries(field, current_idx, target_idx);
                current_idx = target_idx;
            }
        }
        idx += 1;
    }
    assert forall|k: int| 0 <= k < n implies field@[k] == gather(a, p)[k] by {
        assert(settled@[k] == k);
    }
}

} // verus!
