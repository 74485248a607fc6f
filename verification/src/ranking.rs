//! Totals and orderings of the results tables and bar charts.
use vstd::prelude::*;

verus! {

/// The sum of a sequence of numbers.
pub open spec fn seq_sum(s: Seq<i64>) -> int
    decreases s.len(),
{
    if s.len() == 0 {
        0
    } else {
        seq_sum(s.drop_last()) + s.last()
    }
}

/// Adding the numbers one by one never leaves the `i64` range.
pub open spec fn partial_sums_fit(s: Seq<i64>) -> bool {
    forall|k: int| 0 <= k <= s.len() ==> i64::MIN <= #[trigger] seq_sum(s.take(k)) <= i64::MAX
}

/// The sum of the numbers, added in order.
pub fn sum_values(values: &Vec<i64>) -> (total: i64)
    requires
        partial_sums_fit(values@),
    ensures
        total == seq_sum(values@),
{
    let mut total: i64 = 0;
    let mut i: usize = 0;
    assert(values@.take(0) =~= Seq::<i64>::empty());
    while i < values.len()
        invariant
            i <= values@.len(),
            partial_sums_fit(values@),
            total == seq_sum(values@.take(i as int)),
        decreases values@.len() - i,
    {
        assert(values@.take(i + 1).drop_last() =~= values@.take(i as int));
        assert(i64::MIN <= seq_sum(values@.take(i + 1)) <= i64::MAX);
        total = total + values[i];
        i = i + 1;
    }
    assert(values@.take(values@.len() as int) =~= values@);
    total
}

/// Position `a` comes before position `b`: it has the higher key, or the same key
/// and came first.
pub open spec fn ranks_before(keys: Seq<i64>, a: int, b: int) -> bool {
    keys[a] > keys[b] || (keys[a] == keys[b] && a < b)
}

/// `order` lists every position of `keys` once, highest key first, and positions
/// with equal keys in their original order (a stable sort by decreasing key).
pub open spec fn is_rank_order(keys: Seq<i64>, order: Seq<usize>) -> bool {
    &&& order.len() == keys.len()
    &&& forall|i: int| 0 <= i < order.len() ==> #[trigger] order[i] < keys.len()
    &&& forall|i: int, j: int|
        0 <= i < j < order.len() ==> ranks_before(keys, #[trigger] order[i] as int, #[trigger] order[j] as int)
}

/// The positions of `keys` from the highest key to the lowest, ties in original order.
pub fn rank_order(keys: &Vec<i64>) -> (order: Vec<usize>)
    ensures
        is_rank_order(keys@, order@),
{
    let n = keys.len();
    let mut order: Vec<usize> = Vec::new();
    let mut idx: usize = 0;
    while idx < n
        invariant
            n == keys@.len(),
            idx <= n,
            order@.len() == idx,
            forall|i: int| 0 <= i < order@.len() ==> #[trigger] order@[i] < idx,
            forall|i: int, j: int|
                0 <= i < j < order@.len() ==> ranks_before(keys@, #[trigger] order@[i] as int, #[trigger] order@[j] as int),
        decreases n - idx,
    {
        let k = keys[idx];
        let mut p: usize = 0;
        while p < order.len() && keys[order[p]] >= k
            invariant
                n == keys@.len(),
                idx < n,
                k == keys@[idx as int],
                p <= order@.len(),
                forall|i: int| 0 <= i < order@.len() ==> #[trigger] order@[i] < idx,
                forall|i: int| 0 <= i < p ==> keys@[#[trigger] order@[i] as int] >= k,
            decreases order@.len() - p,
        {
            p = p + 1;
        }
        let ghost old_order = order@;
        proof {
            assert forall|i: int| p <= i < old_order.len() implies keys@[#[trigger] old_order[i] as int] < k by {
                if p < i {
                    assert(ranks_before(keys@, old_order[p as int] as int, old_order[i] as int));
                }
            }
        }
        order.insert(p, idx);
        proof {
            assert forall|i: int, j: int| 0 <= i < j < order@.len() implies ranks_before(
                keys@,
                #[trigger] order@[i] as int,
                #[trigger] order@[j] as int,
            ) by {
                if j < p {
                    assert(order@[i] == old_order[i] && order@[j] == old_order[j]);
                } else if j == p {
                    assert(order@[i] == old_order[i]);
                } else if i == p {
                    assert(order@[j] == old_order[j - 1]);
                } else if i < p {
                    assert(order@[i] == old_order[i] && order@[j] == old_order[j - 1]);
                } else {
                    assert(order@[i] == old_order[i - 1] && order@[j] == old_order[j - 1]);
                }
            }
            assert forall|i: int| 0 <= i < order@.len() implies #[trigger] order@[i] < idx + 1 by {
                if i < p {
                    assert(order@[i] == old_order[i]);
                } else if i > p {
                    assert(order@[i] == old_order[i - 1]);
                }
            }
        }
        idx = idx + 1;
    }
    order
}

} // verus!
