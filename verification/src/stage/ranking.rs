//! Ranking by score: the highest score first, equal scores in their first order.

use vstd::prelude::*;

verus! {

/// `order` with the index `i` behind all indices whose score is at least that of
/// `i` at the end of the order.
pub open spec fn inserted(order: Seq<int>, scores: Seq<i32>, i: int) -> Seq<int>
    decreases order.len(),
{
    if order.len() == 0 || scores[order.last()] >= scores[i] {
        order.push(i)
    } else {
        inserted(order.drop_last(), scores, i).push(order.last())
    }
}

/// The indices of the first `n` scores, ranked.
pub open spec fn ranking_of_first(scores: Seq<i32>, n: nat) -> Seq<int>
    decreases n,
{
    if n == 0 {
        Seq::empty()
    } else {
        inserted(ranking_of_first(scores, (n - 1) as nat), scores, n - 1)
    }
}

/// The indices of all scores, ranked.
pub open spec fn ranking(scores: Seq<i32>) -> Seq<int> {
    ranking_of_first(scores, scores.len())
}

/// The indices as mathematical integers.
pub open spec fn indices(v: Seq<usize>) -> Seq<int> {
    Seq::new(v.len(), |k: int| v[k] as int)
}

/// Every index of `order` is one of the first `n`.
pub open spec fn in_range(order: Seq<int>, n: nat) -> bool {
    forall|k: int| 0 <= k < order.len() ==> 0 <= #[trigger] order[k] < n
}

/// Inserting finds the place `p`: behind it all scores are lower, and in front
/// of it stands none that is.
proof fn lemma_inserted_at(order: Seq<int>, scores: Seq<i32>, i: int, p: int)
    requires
        0 <= p <= order.len(),
        forall|k: int| p <= k < order.len() ==> scores[#[trigger] order[k]] < scores[i],
        p > 0 ==> scores[order[p - 1]] >= scores[i],
    ensures
        inserted(order, scores, i) == order.insert(p, i),
    decreases order.len(),
{
    if p == order.len() {
        assert(order.insert(p, i) =~= order.push(i));
    } else {
        let before = order.drop_last();
        assert forall|k: int| p <= k < before.len() implies scores[#[trigger] before[k]]
            < scores[i] by {
            assert(before[k] == order[k]);
        }
        if p > 0 {
            assert(before[p - 1] == order[p - 1]);
        }
        assert(scores[order[order.len() - 1]] < scores[i]);
        lemma_inserted_at(before, scores, i, p);
        assert(before.insert(p, i).push(order.last()) =~= order.insert(p, i));
    }
}

/// The order in which the entries with these scores are shown.
pub fn rank(scores: &Vec<i32>) -> (r: Vec<usize>)
    ensures
        indices(r@) == ranking(scores@),
        in_range(indices(r@), scores@.len()),
        r@.len() == scores@.len(),
{
    let mut order: Vec<usize> = Vec::new();
    assert(indices(order@) =~= Seq::empty());
    for i in 0..scores.len()
        invariant
            order@.len() == i,
            indices(order@) == ranking_of_first(scores@, i as nat),
            forall|k: int| 0 <= k < order@.len() ==> #[trigger] order@[k] < i,
    {
        let mut p: usize = order.len();
        while p > 0 && scores[order[p - 1]] < scores[i]
            invariant
                i < scores@.len(),
                order@.len() == i,
                p <= order@.len(),
                forall|k: int| 0 <= k < order@.len() ==> #[trigger] order@[k] < i,
                forall|k: int|
                    p <= k < order@.len() ==> scores@[#[trigger] order@[k] as int]
                        < scores@[i as int],
            decreases p,
        {
            p -= 1;
        }
        let ghost before = order@;
        proof {
            assert forall|k: int| p <= k < indices(before).len() implies scores@[
            #[trigger] indices(before)[k]] < scores@[i as int] by {
                assert(before[k] as int == indices(before)[k]);
            }
            lemma_inserted_at(indices(before), scores@, i as int, p as int);
        }
        order.insert(p, i);
        assert(indices(order@) =~= indices(before).insert(p as int, i as int));
        assert forall|k: int| 0 <= k < order@.len() implies #[trigger] order@[k] < i + 1 by {
            if k < p {
                assert(order@[k] == before[k]);
            } else if k > p {
                assert(order@[k] == before[k - 1]);
            }
        }
    }
    order
}

// ---------------------------------------------------------------------------
// Laws
// ---------------------------------------------------------------------------

/// `a` ranks in front of `b`: it has the higher score, or the same score and the
/// lower index.
pub open spec fn ranks_before(scores: Seq<i32>, a: int, b: int) -> bool {
    scores[a] > scores[b] || (scores[a] == scores[b] && a < b)
}

/// Of any two entries of an order the one in front ranks in front.
pub open spec fn ordered(order: Seq<int>, scores: Seq<i32>) -> bool {
    forall|j: int, k: int|
        0 <= j < k < order.len() ==> ranks_before(scores, #[trigger] order[j], #[trigger] order[k])
}

/// `order` holds each of the first `n` indices.
pub open spec fn complete(order: Seq<int>, n: nat) -> bool {
    forall|i: int| 0 <= i < n ==> #[trigger] order.contains(i)
}

proof fn lemma_inserted_is_ranked(order: Seq<int>, scores: Seq<i32>, n: nat)
    requires
        order.len() == n,
        in_range(order, n),
        ordered(order, scores),
        complete(order, n),
    ensures
        inserted(order, scores, n as int).len() == n + 1,
        in_range(inserted(order, scores, n as int), n + 1),
        ordered(inserted(order, scores, n as int), scores),
        complete(inserted(order, scores, n as int), n + 1),
{
    let p = insertion_place(order, scores, n as int);
    lemma_insertion_place(order, scores, n as int);
    lemma_inserted_at(order, scores, n as int, p);
    let out = order.insert(p, n as int);
    assert forall|k: int| 0 <= k < out.len() implies 0 <= #[trigger] out[k] < n + 1 by {
        if k < p {
            assert(out[k] == order[k]);
        } else if k > p {
            assert(out[k] == order[k - 1]);
        }
    }
    assert forall|j: int, k: int| 0 <= j < k < out.len() implies ranks_before(
        scores,
        #[trigger] out[j],
        #[trigger] out[k],
    ) by {
        if k < p {
            assert(out[j] == order[j] && out[k] == order[k]);
        } else if k == p {
            assert(out[j] == order[j]);
            assert(scores[order[p - 1]] >= scores[n as int]);
            if j < p - 1 {
                assert(ranks_before(scores, order[j], order[p - 1]));
            }
        } else if j < p {
            assert(out[j] == order[j] && out[k] == order[k - 1]);
        } else if j == p {
            assert(out[k] == order[k - 1]);
        } else {
            assert(out[j] == order[j - 1] && out[k] == order[k - 1]);
        }
    }
    assert forall|i: int| 0 <= i < n + 1 implies #[trigger] out.contains(i) by {
        if i == n {
            assert(out[p] == i);
        } else {
            assert(order.contains(i));
            let k = choose|k: int| 0 <= k < order.len() && order[k] == i;
            if k < p {
                assert(out[k] == i);
            } else {
                assert(out[k + 1] == i);
            }
        }
    }
}

/// The place at which an index is inserted.
spec fn insertion_place(order: Seq<int>, scores: Seq<i32>, i: int) -> int
    decreases order.len(),
{
    if order.len() == 0 || scores[order.last()] >= scores[i] {
        order.len() as int
    } else {
        insertion_place(order.drop_last(), scores, i)
    }
}

proof fn lemma_insertion_place(order: Seq<int>, scores: Seq<i32>, i: int)
    ensures
        0 <= insertion_place(order, scores, i) <= order.len(),
        forall|k: int|
            insertion_place(order, scores, i) <= k < order.len() ==> scores[#[trigger] order[k]]
                < scores[i],
        insertion_place(order, scores, i) > 0 ==> scores[order[insertion_place(order, scores, i)
            - 1]] >= scores[i],
    decreases order.len(),
{
    if order.len() == 0 || scores[order.last()] >= scores[i] {
    } else {
        let before = order.drop_last();
        lemma_insertion_place(before, scores, i);
        let p = insertion_place(order, scores, i);
        assert forall|k: int| p <= k < order.len() implies scores[#[trigger] order[k]]
            < scores[i] by {
            if k < before.len() {
                assert(before[k] == order[k]);
            }
        }
        if p > 0 {
            assert(before[p - 1] == order[p - 1]);
        }
    }
}

proof fn lemma_ranking_of_first(scores: Seq<i32>, n: nat)
    requires
        n <= scores.len(),
    ensures
        ranking_of_first(scores, n).len() == n,
        in_range(ranking_of_first(scores, n), n),
        ordered(ranking_of_first(scores, n), scores),
        complete(ranking_of_first(scores, n), n),
    decreases n,
{
    if n > 0 {
        lemma_ranking_of_first(scores, (n - 1) as nat);
        lemma_inserted_is_ranked(
            ranking_of_first(scores, (n - 1) as nat),
            scores,
            (n - 1) as nat,
        );
    }
}

/// A ranking shows every entry exactly once, higher scores in front of lower
/// ones, and entries of equal score in the order in which they came.
pub proof fn ranking_is_a_stable_descending_sort(scores: Seq<i32>)
    ensures
        ranking(scores).len() == scores.len(),
        in_range(ranking(scores), scores.len()),
        complete(ranking(scores), scores.len()),
        ordered(ranking(scores), scores),
        ranking(scores).no_duplicates(),
{
    lemma_ranking_of_first(scores, scores.len());
    let order = ranking(scores);
    assert forall|j: int, k: int| 0 <= j < order.len() && 0 <= k < order.len() && j != k implies
        order[j] != order[k] by {
        if j < k {
            assert(ranks_before(scores, order[j], order[k]));
        } else {
            assert(ranks_before(scores, order[k], order[j]));
        }
    }
}

} // verus!
