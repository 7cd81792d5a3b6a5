use vstd::prelude::*;

use crate::constants::MAX_IDS_IN_BATCH_REQUEST;
use crate::ids::{lemma_id_eq, Id, MAX_GROUP_ID};
use crate::partition::{
    get_partitioning_ids, id_values, lemma_partitioning_ids_inside, partitioning_ids,
};

verus! {

/// The ids that one probing step sends to the batch endpoint.
pub open spec fn probe_query(low: int, high: int) -> Seq<int> {
    partitioning_ids(low, high, MAX_IDS_IN_BATCH_REQUEST as int)
}

/// The bounds after one probing step from `(low, high)`, given the ids
/// `found` that the batch endpoint reported as existing (ascending, so the
/// last is the largest); `None` where the largest was not queried at all.
pub open spec fn probe_step(low: int, high: int, found: Seq<int>) -> Option<(int, int)> {
    let q = probe_query(low, high);
    if found.len() == 0 {
        Some((low, q[0]))
    } else if q.contains(found.last()) {
        let j = choose|j: int| 0 <= j < q.len() && q[j] == found.last();
        Some(
            (
                found.last(),
                if j + 1 < q.len() {
                    q[j + 1]
                } else {
                    high
                },
            ),
        )
    } else {
        None
    }
}

/// The queried ids that exist where the existing ids are exactly `1..=n`:
/// those of `q` up to `n`, in order.
pub open spec fn ids_up_to(q: Seq<int>, n: int) -> Seq<int>
    decreases q.len(),
{
    if q.len() == 0 {
        Seq::empty()
    } else if q.last() <= n {
        ids_up_to(q.drop_last(), n).push(q.last())
    } else {
        ids_up_to(q.drop_last(), n)
    }
}

proof fn lemma_last_up_to(q: Seq<int>, n: int)
    ensures
        ids_up_to(q, n).len() == 0 ==> forall|k: int| 0 <= k < q.len() ==> #[trigger] q[k] > n,
        ids_up_to(q, n).len() > 0 ==> exists|i: int|
            0 <= i < q.len() && q[i] == ids_up_to(q, n).last() && q[i] <= n && forall|k: int|
                i < k < q.len() ==> #[trigger] q[k] > n,
    decreases q.len(),
{
    if q.len() > 0 {
        let p = q.drop_last();
        lemma_last_up_to(p, n);
        assert forall|k: int| 0 <= k < p.len() implies #[trigger] q[k] == p[k] by {}
        if q.last() <= n {
            let i = q.len() - 1;
            assert(q[i] == ids_up_to(q, n).last());
        } else if ids_up_to(p, n).len() > 0 {
            let i = choose|i: int|
                0 <= i < p.len() && p[i] == ids_up_to(p, n).last() && p[i] <= n && forall|k: int|
                    i < k < p.len() ==> #[trigger] p[k] > n;
            assert(q[i] == ids_up_to(q, n).last());
            assert forall|k: int| i < k < q.len() implies #[trigger] q[k] > n by {
                if k < p.len() {
                    assert(p[k] > n);
                }
            }
        } else {
            assert forall|k: int| 0 <= k < q.len() implies #[trigger] q[k] > n by {
                if k < p.len() {
                    assert(p[k] > n);
                }
            }
        }
    }
}

/// Where the existing ids are exactly `1..=n` and the bounds hold `n`
/// (`low <= n < high`), a probing step keeps it between them. As every step
/// narrows the bounds, the search ends with `low == n`.
pub proof fn lemma_probe_step_keeps_highest(low: int, high: int, n: int)
    requires
        1 <= low <= n < high,
        high - low > 1,
    ensures
        (probe_step(low, high, ids_up_to(probe_query(low, high), n)) matches Some(b) && b.0 <= n
            && n < b.1),
{
    let q = probe_query(low, high);
    let f = ids_up_to(q, n);
    lemma_partitioning_ids_inside(low, high, 100);
    lemma_last_up_to(q, n);
    if f.len() > 0 {
        let i = choose|i: int|
            0 <= i < q.len() && q[i] == f.last() && q[i] <= n && forall|k: int|
                i < k < q.len() ==> #[trigger] q[k] > n;
        assert(q.contains(f.last()));
        let j = choose|j: int| 0 <= j < q.len() && q[j] == f.last();
        if j < i {
            assert(q[j] < q[i]);
        } else if i < j {
            assert(q[i] < q[j]);
        }
        if i + 1 < q.len() {
            assert(q[i + 1] > n);
        }
    } else {
        assert(q[0] > n);
    }
}

/// The search for the highest existing id: `low` is known to exist (or is
/// the smallest id), `high` is known not to (or is the largest id).
pub struct Prober {
    low: Id,
    high: Id,
}

impl View for Prober {
    type V = (int, int);

    closed spec fn view(&self) -> (int, int) {
        (self.low@, self.high@)
    }
}

impl Prober {
    #[verifier::type_invariant]
    spec fn ordered(self) -> bool {
        self.low@ < self.high@
    }

    /// The search over the whole id space.
    pub fn new() -> (r: Prober)
        ensures
            r@ == (1int, MAX_GROUP_ID as int),
    {
        Prober { low: Id::min_id(), high: Id::max_id() }
    }

    /// The search between `low` and `high`, where `low < high`.
    pub fn with_bounds(low: Id, high: Id) -> (r: Option<Prober>)
        ensures
            r is Some <==> low@ < high@,
            r matches Some(p) ==> p@ == (low@, high@),
    {
        if low.get() < high.get() {
            Some(Prober { low, high })
        } else {
            None
        }
    }

    /// The bounds always satisfy `low < high`.
    pub fn bounds(&self) -> (r: (Id, Id))
        ensures
            r.0@ == self@.0,
            r.1@ == self@.1,
            r.0@ < r.1@,
    {
        proof {
            use_type_invariant(self);
        }
        (self.low, self.high)
    }

    /// Whether no id is left between the bounds.
    pub fn is_done(&self) -> (r: bool)
        ensures
            r == (self@.1 - self@.0 <= 1),
    {
        proof {
            use_type_invariant(self);
        }
        self.high.get() - self.low.get() <= 1
    }

    /// The ids to look up next: at most 100, strictly between the bounds.
    pub fn next_query(&self) -> (r: Vec<Id>)
        ensures
            id_values(r@) == probe_query(self@.0, self@.1),
            r@.len() <= MAX_IDS_IN_BATCH_REQUEST,
            self@.1 - self@.0 > 1 ==> {
                &&& 1 <= r@.len()
                &&& forall|i: int| 0 <= i < r@.len() ==> self@.0 < #[trigger] r@[i]@ < self@.1
                &&& forall|i: int, j: int|
                    0 <= i < j < r@.len() ==> #[trigger] r@[i]@ < #[trigger] r@[j]@
            },
    {
        proof {
            use_type_invariant(self);
        }
        let r = get_partitioning_ids(self.low, self.high, MAX_IDS_IN_BATCH_REQUEST);
        proof {
            if self.high@ - self.low@ > 1 {
                lemma_partitioning_ids_inside(self.low@, self.high@, 100);
            }
            assert(r@.len() == id_values(r@).len());
            assert(forall|i: int| 0 <= i < r@.len() ==> #[trigger] r@[i]@ == id_values(r@)[i]);
        }
        r
    }

    /// The highest id known to exist once the search is done.
    pub fn highest(&self) -> (r: Id)
        ensures
            r@ == self@.0,
    {
        self.low
    }

    /// Narrows the bounds by the answer to `next_query`: `found` holds the
    /// queried ids that exist, ascending. Where the search is already done,
    /// or the last of `found` was not queried, nothing changes and the
    /// result is false. Otherwise the gap between the bounds shrinks.
    pub fn advance(&mut self, found: &Vec<Id>) -> (r: bool)
        ensures
            r == (old(self)@.1 - old(self)@.0 > 1 && probe_step(
                old(self)@.0,
                old(self)@.1,
                id_values(found@),
            ) is Some),
            r ==> Some(final(self)@) == probe_step(old(self)@.0, old(self)@.1, id_values(found@)),
            !r ==> final(self)@ == old(self)@,
            r ==> old(self)@.0 <= final(self)@.0 && final(self)@.1 <= old(self)@.1,
            r ==> final(self)@.1 - final(self)@.0 < old(self)@.1 - old(self)@.0,
    {
        proof {
            use_type_invariant(&*self);
        }
        if self.is_done() {
            return false;
        }
        let query = self.next_query();
        let ghost q = probe_query(self@.0, self@.1);
        let ghost f = id_values(found@);
        proof {
            lemma_partitioning_ids_inside(self@.0, self@.1, 100);
            assert(q.len() == query@.len());
            assert(forall|i: int| 0 <= i < q.len() ==> q[i] == #[trigger] query@[i]@);
        }
        if found.len() == 0 {
            let high = query[0];
            *self = Prober { low: self.low, high };
            return true;
        }
        let last = found[found.len() - 1];
        proof {
            assert(f.last() == last@);
        }
        let mut j: usize = 0;
        while j < query.len() && query[j] != last
            invariant
                0 <= j <= query@.len(),
                forall|i: int| 0 <= i < j ==> #[trigger] query@[i] != last,
            decreases query@.len() - j,
        {
            j = j + 1;
        }
        if j == query.len() {
            proof {
                assert forall|i: int| 0 <= i < q.len() implies q[i] != last@ by {
                    assert(query@[i] != last);
                    lemma_id_eq(query@[i], last);
                }
            }
            return false;
        }
        let high = if j + 1 < query.len() {
            query[j + 1]
        } else {
            self.high
        };
        proof {
            assert(q[j as int] == last@);
            assert(q.contains(last@));
            let c = choose|c: int| 0 <= c < q.len() && q[c] == f.last();
            if c < j {
                assert(q[c] < q[j as int]);
            } else if c > j {
                assert(q[j as int] < q[c]);
            }
            assert(c == j);
        }
        *self = Prober { low: last, high };
        true
    }
}

} // verus!
