//! The order in which the pairs of a population are taken.

use vstd::prelude::*;

verus! {

/// Whether `p` is a pair of two of `n` bodies, the earlier one first.
pub open spec fn is_pair(p: (int, int), n: int) -> bool {
    0 <= p.0 < p.1 < n
}

/// Whether the pair `a` is taken before the pair `b`: the one with the lesser
/// first index, or of two with the same first index the one with the lesser
/// second index.
pub open spec fn pair_before(a: (int, int), b: (int, int)) -> bool {
    a.0 < b.0 || (a.0 == b.0 && a.1 < b.1)
}

/// Whether the pair `(i, j)` is among `pairs`.
pub open spec fn takes(pairs: Seq<(int, int)>, i: int, j: int) -> bool {
    pairs.contains((i, j))
}

/// The pairs `(i, i + 1)` to `(i, j - 1)`, in that order.
pub open spec fn row_pairs(i: int, j: int) -> Seq<(int, int)>
    decreases j - i,
{
    if j <= i + 1 {
        Seq::empty()
    } else {
        row_pairs(i, j - 1).push((i, j - 1))
    }
}

/// The pairs of `n` bodies whose first index is below `i`: row after row.
pub open spec fn rows_pairs(i: int, n: int) -> Seq<(int, int)>
    decreases i,
{
    if i <= 0 {
        Seq::empty()
    } else {
        rows_pairs(i - 1, n) + row_pairs(i - 1, n)
    }
}

/// Every pair of `n` bodies, in the order in which collisions are resolved.
pub open spec fn all_pairs(n: int) -> Seq<(int, int)> {
    rows_pairs(n, n)
}

/// A row holds the pairs of its body with each body behind it, in ascending
/// order.
pub proof fn lemma_row_pairs(i: int, j: int)
    ensures
        row_pairs(i, j).len() == if j <= i + 1 { 0 } else { j - i - 1 },
        forall|t: int| 0 <= t < row_pairs(i, j).len() ==> #[trigger] row_pairs(i, j)[t] == (i, i + 1 + t),
    decreases j - i,
{
    if j > i + 1 {
        lemma_row_pairs(i, j - 1);
    }
}

/// The first `i` rows hold pairs only, each once and all in order, and they
/// hold every pair whose first index is below `i`.
pub proof fn lemma_rows_pairs(i: int, n: int)
    requires
        0 <= i <= n,
    ensures
        2 * rows_pairs(i, n).len() == i * (2 * n - i - 1),
        forall|k: int|
            0 <= k < rows_pairs(i, n).len() ==> is_pair(#[trigger] rows_pairs(i, n)[k], n)
                && rows_pairs(i, n)[k].0 < i,
        forall|a: int, b: int|
            0 <= a < b < rows_pairs(i, n).len() ==> pair_before(
                #[trigger] rows_pairs(i, n)[a],
                #[trigger] rows_pairs(i, n)[b],
            ),
        forall|x: int, y: int|
            0 <= x < i && x < y < n ==> #[trigger] takes(rows_pairs(i, n), x, y),
    decreases i,
{
    if i > 0 {
        let head = rows_pairs(i - 1, n);
        let row = row_pairs(i - 1, n);
        let all = rows_pairs(i, n);
        lemma_rows_pairs(i - 1, n);
        lemma_row_pairs(i - 1, n);
        assert(all == head + row);
        assert(all.len() == head.len() + row.len());
        assert(2 * all.len() == i * (2 * n - i - 1)) by (nonlinear_arith)
            requires
                2 * head.len() == (i - 1) * (2 * n - (i - 1) - 1),
                row.len() == n - i,
                all.len() == head.len() + row.len(),
        ;
        assert forall|k: int| 0 <= k < all.len() implies is_pair(#[trigger] all[k], n) && all[k].0
            < i by {
            if k < head.len() {
                assert(all[k] == head[k]);
            } else {
                assert(all[k] == row[k - head.len()]);
            }
        }
        assert forall|a: int, b: int| 0 <= a < b < all.len() implies pair_before(
            #[trigger] all[a],
            #[trigger] all[b],
        ) by {
            if b < head.len() {
                assert(all[a] == head[a]);
                assert(all[b] == head[b]);
            } else if a < head.len() {
                assert(all[a] == head[a]);
                assert(all[b] == row[b - head.len()]);
            } else {
                assert(all[a] == row[a - head.len()]);
                assert(all[b] == row[b - head.len()]);
            }
        }
        assert forall|x: int, y: int| 0 <= x < i && x < y < n implies #[trigger] takes(
            all,
            x,
            y,
        ) by {
            if x < i - 1 {
                assert(takes(head, x, y));
                let k = choose|k: int| 0 <= k < head.len() && head[k] == (x, y);
                assert(all[k] == (x, y));
            } else {
                let t = y - x - 1;
                assert(row[t] == (x, y));
                assert(all[head.len() + t] == (x, y));
            }
        }
    }
}

/// The order of resolution holds every pair of two different bodies exactly
/// once, the earlier body first, by ascending first and then ascending second
/// index. There are `n * (n - 1) / 2` of them.
pub proof fn lemma_all_pairs_once_in_order(n: int)
    requires
        0 <= n,
    ensures
        2 * all_pairs(n).len() == n * (n - 1),
        forall|k: int| 0 <= k < all_pairs(n).len() ==> is_pair(#[trigger] all_pairs(n)[k], n),
        forall|a: int, b: int|
            0 <= a < b < all_pairs(n).len() ==> pair_before(
                #[trigger] all_pairs(n)[a],
                #[trigger] all_pairs(n)[b],
            ),
        forall|i: int, j: int| 0 <= i < j < n ==> #[trigger] takes(all_pairs(n), i, j),
{
    lemma_rows_pairs(n, n);
    assert(n * (2 * n - n - 1) == n * (n - 1)) by (nonlinear_arith);
}

/// Fewer than two bodies have no pair.
pub proof fn lemma_no_pair_of_fewer_than_two(n: int)
    requires
        0 <= n < 2,
    ensures
        all_pairs(n).len() == 0,
{
    lemma_all_pairs_once_in_order(n);
    assert(n * (n - 1) == 0) by (nonlinear_arith)
        requires
            0 <= n < 2,
    ;
}

} // verus!
