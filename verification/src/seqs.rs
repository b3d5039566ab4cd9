//! Index-list helpers: the positions below `n` that satisfy a predicate,
//! and the first such position.

use vstd::prelude::*;

verus! {

/// The indices `i < n` with `p(i)`, in increasing order.
pub open spec fn index_filter(n: nat, p: spec_fn(int) -> bool) -> Seq<usize>
    decreases n,
{
    if n == 0 {
        Seq::empty()
    } else if p(n - 1) {
        index_filter((n - 1) as nat, p).push((n - 1) as usize)
    } else {
        index_filter((n - 1) as nat, p)
    }
}

/// The smallest index `i < n` with `p(i)`.
pub open spec fn first_index(n: nat, p: spec_fn(int) -> bool) -> Option<nat>
    decreases n,
{
    if n == 0 {
        None
    } else {
        match first_index((n - 1) as nat, p) {
            Some(i) => Some(i),
            None => if p(n - 1) {
                Some((n - 1) as nat)
            } else {
                None
            },
        }
    }
}

/// `0, 1, ..., n - 1`.
pub open spec fn all_indices(n: nat) -> Seq<usize> {
    Seq::new(n, |i: int| i as usize)
}

pub proof fn lemma_index_filter_true(n: nat, p: spec_fn(int) -> bool)
    requires
        forall|i: int| 0 <= i < n ==> #[trigger] p(i),
        n <= usize::MAX + 1,
    ensures
        index_filter(n, p) == all_indices(n),
    decreases n,
{
    if n > 0 {
        lemma_index_filter_true((n - 1) as nat, p);
        assert(all_indices(n) =~= all_indices((n - 1) as nat).push((n - 1) as usize));
    } else {
        assert(all_indices(0) =~= Seq::<usize>::empty());
    }
}

/// Members of `index_filter` are in range, satisfy `p`, and every index
/// that satisfies `p` is a member; they increase strictly.
pub proof fn lemma_index_filter_members(n: nat, p: spec_fn(int) -> bool)
    requires
        n <= usize::MAX + 1,
    ensures
        forall|k: int| 0 <= k < index_filter(n, p).len() ==> {
            let i = #[trigger] index_filter(n, p)[k];
            i < n && p(i as int)
        },
        forall|i: int| 0 <= i < n && #[trigger] p(i) ==> index_filter(n, p).contains(i as usize),
        forall|a: int, b: int|
            0 <= a < b < index_filter(n, p).len() ==> index_filter(n, p)[a] < index_filter(n, p)[b],
    decreases n,
{
    if n > 0 {
        lemma_index_filter_members((n - 1) as nat, p);
        let r = index_filter((n - 1) as nat, p);
        if p(n - 1) {
            assert forall|i: int| 0 <= i < n && #[trigger] p(i) implies index_filter(n, p).contains(i as usize) by {
                if i < n - 1 {
                    let k = choose|k: int| 0 <= k < r.len() && r[k] == i as usize;
                    assert(index_filter(n, p)[k] == i as usize);
                } else {
                    assert(index_filter(n, p)[r.len() as int] == i as usize);
                }
            }
        }
    }
}

/// Copies of the indices `0..n`.
pub fn all_indices_vec(n: usize) -> (v: Vec<usize>)
    ensures
        v@ == all_indices(n as nat),
{
    let mut v: Vec<usize> = Vec::new();
    for i in 0..n
        invariant
            v@ == all_indices(i as nat),
    {
        v.push(i);
        proof {
            assert(all_indices((i + 1) as nat) =~= all_indices(i as nat).push(i));
        }
    }
    v
}

/// Once `p` holds at `i` and nowhere before, `i` is the first index at
/// every bound past it.
pub proof fn lemma_first_index_found(n: nat, p: spec_fn(int) -> bool, i: nat)
    requires
        i < n,
        p(i as int),
        first_index(i, p) is None,
    ensures
        first_index(n, p) == Some(i),
    decreases n,
{
    if n > i + 1 {
        lemma_first_index_found((n - 1) as nat, p, i);
    }
}

/// Where `p` holds nowhere below the bound, no first index is found.
pub proof fn lemma_first_index_absent(n: nat, p: spec_fn(int) -> bool)
    requires
        forall|k: int| 0 <= k < n ==> !#[trigger] p(k),
    ensures
        first_index(n, p) is None,
    decreases n,
{
    if n > 0 {
        lemma_first_index_absent((n - 1) as nat, p);
    }
}

/// Where `p` holds below the bound, some first index is found.
pub proof fn lemma_first_index_some(n: nat, p: spec_fn(int) -> bool, i: nat)
    requires
        i < n,
        p(i as int),
    ensures
        first_index(n, p) is Some,
    decreases n,
{
    if n > i + 1 {
        lemma_first_index_some((n - 1) as nat, p, i);
    }
}

/// The first index found lies below the bound and satisfies the predicate.
pub proof fn lemma_first_index_in_range(n: nat, p: spec_fn(int) -> bool)
    requires
        first_index(n, p) is Some,
    ensures
        first_index(n, p)->0 < n,
        p(first_index(n, p)->0 as int),
        forall|k: int| 0 <= k < first_index(n, p)->0 ==> !#[trigger] p(k),
    decreases n,
{
    if n > 0 {
        if first_index((n - 1) as nat, p) is Some {
            lemma_first_index_in_range((n - 1) as nat, p);
        } else {
            if (n - 1) > 0 {
                lemma_first_index_none_back((n - 1) as nat, p);
            }
        }
    }
}

proof fn lemma_first_index_none_back(n: nat, p: spec_fn(int) -> bool)
    requires
        first_index(n, p) is None,
    ensures
        forall|k: int| 0 <= k < n ==> !#[trigger] p(k),
    decreases n,
{
    if n > 0 {
        lemma_first_index_none_back((n - 1) as nat, p);
    }
}

} // verus!
