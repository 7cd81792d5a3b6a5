use vstd::arithmetic::div_mod::{lemma_div_pos_is_pos, lemma_fundamental_div_mod, lemma_mod_pos_bound};
use vstd::prelude::*;

use crate::ids::{is_group_id, Id};

verus! {

/// The `i`-th (from 0) of evenly spaced points after `low`, where each of the
/// gaps holds `size` ids and the first `extra` gaps hold one id more.
pub open spec fn partition_point(low: int, size: int, extra: int, i: int) -> int {
    low + (i + 1) * (size + 1) + if i + 1 < extra {
        i + 1
    } else {
        extra
    }
}

/// The ids that split the open interval `(low, high)` into `k + 1` gaps as
/// evenly as possible; where the interval holds at most `k` ids, all of them.
pub open spec fn partitioning_ids(low: int, high: int, k: int) -> Seq<int> {
    let space = high - low - 1;
    if space <= k {
        Seq::new(space as nat, |i: int| low + 1 + i)
    } else {
        let size = (space - k) / (k + 1);
        let extra = (space - k) % (k + 1);
        Seq::new(k as nat, |i: int| partition_point(low, size, extra, i))
    }
}

/// The values of a sequence of ids.
pub open spec fn id_values(s: Seq<Id>) -> Seq<int> {
    s.map_values(|id: Id| id@)
}

proof fn lemma_point_monotone(low: int, size: int, extra: int, i: int, j: int)
    requires
        0 <= i < j,
        size >= 0,
        extra >= 0,
    ensures
        partition_point(low, size, extra, i) < partition_point(low, size, extra, j),
{
    assert((i + 1) * (size + 1) < (j + 1) * (size + 1)) by (nonlinear_arith)
        requires
            0 <= i < j,
            size >= 0,
    ;
}

/// Where the interval holds more than `k` ids, the last point lies `size`
/// ids below `high`.
proof fn lemma_last_point(low: int, high: int, k: int)
    requires
        k >= 1,
        high - low - 1 > k,
    ensures
        ({
            let space = high - low - 1;
            let size = (space - k) / (k + 1);
            let extra = (space - k) % (k + 1);
            &&& size >= 0
            &&& 0 <= extra <= k
            &&& partition_point(low, size, extra, k - 1) == high - 1 - size
        }),
{
    let space = high - low - 1;
    let size = (space - k) / (k + 1);
    let extra = (space - k) % (k + 1);
    lemma_fundamental_div_mod(space - k, k + 1);
    lemma_mod_pos_bound(space - k, k + 1);
    lemma_div_pos_is_pos(space - k, k + 1);
    assert(k * (size + 1) + extra == space - size) by (nonlinear_arith)
        requires
            space - k == (k + 1) * size + extra,
    ;
}

/// Where the interval `(low, high)` holds at most `k` ids, the partitioning
/// ids are exactly those ids, in ascending order and without repeats.
pub proof fn lemma_small_interval_is_enumerated(low: int, high: int, k: int)
    requires
        low < high,
        high - low - 1 <= k,
    ensures
        partitioning_ids(low, high, k).len() == high - low - 1,
        forall|i: int|
            0 <= i < partitioning_ids(low, high, k).len() ==> #[trigger] partitioning_ids(
                low,
                high,
                k,
            )[i] == low + 1 + i,
        forall|v: int| low < v < high <==> partitioning_ids(low, high, k).contains(v),
        partitioning_ids(low, high, k).no_duplicates(),
{
    let s = partitioning_ids(low, high, k);
    assert forall|v: int| low < v < high implies s.contains(v) by {
        assert(s[v - low - 1] == v);
    }
}

/// Where `(low, high)` is not empty and `k >= 1`, there is at least one
/// partitioning id, and they ascend strictly inside the interval.
pub proof fn lemma_partitioning_ids_inside(low: int, high: int, k: int)
    requires
        high - low > 1,
        k >= 1,
    ensures
        partitioning_ids(low, high, k).len() >= 1,
        partitioning_ids(low, high, k).len() <= k,
        forall|i: int|
            0 <= i < partitioning_ids(low, high, k).len() ==> low < #[trigger] partitioning_ids(
                low,
                high,
                k,
            )[i] < high,
        forall|i: int, j: int|
            0 <= i < j < partitioning_ids(low, high, k).len() ==> #[trigger] partitioning_ids(
                low,
                high,
                k,
            )[i] < #[trigger] partitioning_ids(low, high, k)[j],
{
    let space = high - low - 1;
    if space > k {
        lemma_last_point(low, high, k);
        let size = (space - k) / (k + 1);
        let extra = (space - k) % (k + 1);
        assert forall|i: int, j: int| 0 <= i < j < k implies #[trigger] partition_point(low, size, extra, i)
            < #[trigger] partition_point(low, size, extra, j) by {
            lemma_point_monotone(low, size, extra, i, j);
        }
        assert forall|i: int| 0 <= i < k implies low < #[trigger] partition_point(low, size, extra, i)
            < high by {
            if i < k - 1 {
                lemma_point_monotone(low, size, extra, i, k - 1);
            }
            assert((i + 1) * (size + 1) >= 1) by (nonlinear_arith)
                requires
                    i >= 0,
                    size >= 0,
            ;
        }
    }
}

/// Up to `number_of_partitioning_ids` ids strictly between `low_id` and
/// `high_id`, in ascending order and as evenly spaced as possible: the gaps
/// differ by at most one id, the first gaps being the larger.
pub fn get_partitioning_ids(low_id: Id, high_id: Id, number_of_partitioning_ids: usize) -> (r:
    Vec<Id>)
    requires
        low_id@ < high_id@,
        number_of_partitioning_ids >= 1,
    ensures
        id_values(r@) == partitioning_ids(low_id@, high_id@, number_of_partitioning_ids as int),
{
    let k = number_of_partitioning_ids as u64;
    let high = high_id.get();
    let low = low_id.get();
    let ghost gk = k as int;
    let ghost target = partitioning_ids(low as int, high as int, gk);
    let search_space = high - low - 1;
    let mut ids: Vec<Id> = Vec::new();
    if search_space <= k {
        let mut id: u64 = low + 1;
        while id < high
            invariant
                low < id <= high,
                is_group_id(high as int),
                is_group_id(low as int),
                target == partitioning_ids(low as int, high as int, gk),
                search_space == high - low - 1,
                search_space <= gk,
                id_values(ids@) == target.take(id - low - 1),
            decreases high - id,
        {
            let ghost prev = ids@;
            let next = Id::from_value(id);
            ids.push(next);
            proof {
                assert(target[id - low - 1] == id);
                assert(ids@ == prev.push(next));
                assert(id_values(ids@) =~= id_values(prev).push(next@));
                assert(id_values(ids@) =~= target.take(id - low));
            }
            id = id + 1;
        }
        proof {
            assert(target.take(high - low - 1) =~= target);
        }
        return ids;
    }
    let space_to_partition = search_space - k;
    let number_of_partitions = k + 1;
    let partition_size = space_to_partition / number_of_partitions;
    let extra = space_to_partition % number_of_partitions;
    let mut leftover_space = extra;
    proof {
        lemma_last_point(low as int, high as int, gk);
    }
    let mut last_partitioning_id = low;
    let mut i: u64 = 0;
    while i < k
        invariant
            0 <= i <= k,
            k == gk,
            gk >= 1,
            is_group_id(high as int),
            is_group_id(low as int),
            search_space == high - low - 1,
            search_space > gk,
            partition_size == (search_space - gk) / (gk + 1),
            extra == (search_space - gk) % (gk + 1),
            partition_size >= 0,
            0 <= extra <= gk,
            partition_point(low as int, partition_size as int, extra as int, gk - 1) == high - 1
                - partition_size,
            target == partitioning_ids(low as int, high as int, gk),
            target.len() == gk,
            i == 0 ==> last_partitioning_id == low,
            i > 0 ==> last_partitioning_id == partition_point(
                low as int,
                partition_size as int,
                extra as int,
                i - 1,
            ),
            leftover_space == if i < extra {
                extra - i
            } else {
                0
            },
            id_values(ids@) == target.take(i as int),
        decreases k - i,
    {
        proof {
            if i < gk - 1 {
                lemma_point_monotone(
                    low as int,
                    partition_size as int,
                    extra as int,
                    i as int,
                    gk - 1,
                );
            }
            if i > 0 {
                lemma_point_monotone(
                    low as int,
                    partition_size as int,
                    extra as int,
                    i - 1,
                    i as int,
                );
            }
            assert((i + 1) * (partition_size + 1) == i * (partition_size + 1) + partition_size
                + 1) by (nonlinear_arith);
            assert((i + 1) * (partition_size + 1) >= 1) by (nonlinear_arith)
                requires
                    i >= 0,
                    partition_size >= 0,
            ;
        }
        let mut partitioning_id = last_partitioning_id + partition_size + 1;
        if leftover_space > 0 {
            partitioning_id = partitioning_id + 1;
            leftover_space = leftover_space - 1;
        }
        let ghost prev = ids@;
        let next = Id::from_value(partitioning_id);
        ids.push(next);
        proof {
            assert(target[i as int] == partition_point(
                low as int,
                partition_size as int,
                extra as int,
                i as int,
            ));
            assert(next@ == target[i as int]);
            assert(ids@ == prev.push(next));
            assert(id_values(ids@) =~= id_values(prev).push(next@));
            assert(id_values(ids@) =~= target.take(i + 1));
        }
        last_partitioning_id = partitioning_id;
        i = i + 1;
    }
    proof {
        assert(target.take(gk) =~= target);
    }
    ids
}

} // verus!
