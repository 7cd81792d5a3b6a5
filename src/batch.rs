use vstd::prelude::*;

use crate::constants::MAX_IDS_IN_BATCH_REQUEST;
use crate::groups::BatchInfo;
use crate::ids::{lemma_id_eq, Id};
use crate::partition::id_values;

verus! {

/// An id waiting for the batch stage, with whether the batch stage has
/// already seen it once.
#[derive(Debug, Clone, Copy, PartialEq, Eq, Structural)]
pub struct TrackedGroup {
    pub id: Id,
    pub processed_before: bool,
}

impl Default for TrackedGroup {
    fn default() -> (r: TrackedGroup)
        ensures
            r.id@ == 1,
            !r.processed_before,
    {
        TrackedGroup { id: Id::min_id(), processed_before: false }
    }
}

/// The ids of a sequence of tracked groups.
pub open spec fn group_ids(s: Seq<TrackedGroup>) -> Seq<int> {
    s.map_values(|g: TrackedGroup| g.id@)
}

/// Whether no id occurs twice.
pub open spec fn distinct_ids(s: Seq<TrackedGroup>) -> bool {
    forall|i: int, j: int| 0 <= i < j < s.len() ==> #[trigger] s[i].id@ != #[trigger] s[j].id@
}

/// Where the id `id` stands in `s`, if anywhere.
pub open spec fn position(s: Seq<TrackedGroup>, id: int) -> Option<int> {
    if exists|i: int| 0 <= i < s.len() && s[i].id@ == id {
        Some(choose|i: int| 0 <= i < s.len() && s[i].id@ == id)
    } else {
        None
    }
}

/// The `processed_before` flag that `s` holds for `id`, if it holds `id`.
pub open spec fn flag_of(s: Seq<TrackedGroup>, id: int) -> Option<bool> {
    match position(s, id) {
        Some(i) => Some(s[i].processed_before),
        None => None,
    }
}

/// Whether an answered entry goes on to the detailed stage: no owner, and
/// the batch stage had already seen its id once.
pub open spec fn promotes(batch: Seq<TrackedGroup>, entry: BatchInfo) -> bool {
    entry.owner is None && flag_of(batch, entry.id@) == Some(true)
}

/// The ids that go on to the detailed stage, in the order of the answer.
pub open spec fn promoted(batch: Seq<TrackedGroup>, found: Seq<BatchInfo>) -> Seq<int>
    decreases found.len(),
{
    if found.len() == 0 {
        Seq::empty()
    } else {
        let rest = promoted(batch, found.drop_last());
        if promotes(batch, found.last()) {
            rest.push(found.last().id@)
        } else {
            rest
        }
    }
}

/// The ids that go back to the main batch queue, marked as seen, in the
/// order of the answer: those of the batch that exist and are not promoted.
pub open spec fn requeued(batch: Seq<TrackedGroup>, found: Seq<BatchInfo>) -> Seq<int>
    decreases found.len(),
{
    if found.len() == 0 {
        Seq::empty()
    } else {
        let rest = requeued(batch, found.drop_last());
        if flag_of(batch, found.last().id@) is Some && !promotes(batch, found.last()) {
            rest.push(found.last().id@)
        } else {
            rest
        }
    }
}

/// Where a batch's answer sends its entries.
pub struct BatchDispatch {
    /// To the detailed stage.
    pub promote: Vec<Id>,
    /// Back to the main batch queue, each marked as seen.
    pub requeue: Vec<TrackedGroup>,
}

/// The ids that one call of the batch endpoint carries: at most 100, each
/// once, with their `processed_before` flags.
pub struct Batch {
    entries: Vec<TrackedGroup>,
}

impl View for Batch {
    type V = Seq<TrackedGroup>;

    closed spec fn view(&self) -> Seq<TrackedGroup> {
        self.entries@
    }
}

proof fn lemma_position_at(s: Seq<TrackedGroup>, i: int)
    requires
        distinct_ids(s),
        0 <= i < s.len(),
    ensures
        position(s, s[i].id@) == Some(i),
{
    let c = choose|c: int| 0 <= c < s.len() && s[c].id@ == s[i].id@;
    if c != i {
        if c < i {
            assert(s[c].id@ != s[i].id@);
        } else {
            assert(s[i].id@ != s[c].id@);
        }
    }
}

/// An id reaches the detailed stage only where the batch held it as seen
/// before and the answer listed it without an owner.
pub proof fn lemma_promoted_seen_twice(batch: Seq<TrackedGroup>, found: Seq<BatchInfo>, id: int)
    requires
        promoted(batch, found).contains(id),
    ensures
        flag_of(batch, id) == Some(true),
        exists|i: int| 0 <= i < found.len() && #[trigger] found[i].id@ == id && found[i].owner is None,
    decreases found.len(),
{
    let rest = promoted(batch, found.drop_last());
    if rest.contains(id) {
        lemma_promoted_seen_twice(batch, found.drop_last(), id);
        let i = choose|i: int|
            0 <= i < found.drop_last().len() && #[trigger] found.drop_last()[i].id@ == id
                && found.drop_last()[i].owner is None;
        assert(found[i] == found.drop_last()[i]);
    } else {
        assert(found.last().id@ == id);
        assert(found[found.len() - 1].id@ == id);
    }
}

impl Batch {
    #[verifier::type_invariant]
    spec fn well_formed(self) -> bool {
        &&& distinct_ids(self.entries@)
        &&& self.entries@.len() <= MAX_IDS_IN_BATCH_REQUEST
    }

    /// An empty batch.
    pub fn new() -> (r: Batch)
        ensures
            r@ == Seq::<TrackedGroup>::empty(),
    {
        Batch { entries: Vec::new() }
    }

    pub fn len(&self) -> (r: usize)
        ensures
            r == self@.len(),
            r <= MAX_IDS_IN_BATCH_REQUEST,
            distinct_ids(self@),
    {
        proof {
            use_type_invariant(self);
        }
        self.entries.len()
    }

    pub fn is_empty(&self) -> (r: bool)
        ensures
            r == (self@.len() == 0),
    {
        self.entries.len() == 0
    }

    /// Whether the batch holds 100 ids.
    pub fn is_full(&self) -> (r: bool)
        ensures
            r == (self@.len() >= MAX_IDS_IN_BATCH_REQUEST),
    {
        self.entries.len() >= MAX_IDS_IN_BATCH_REQUEST
    }

    fn index_of(&self, id: Id) -> (r: Option<usize>)
        ensures
            r matches Some(i) ==> position(self@, id@) == Some(i as int),
            r is None ==> position(self@, id@) is None,
    {
        proof {
            use_type_invariant(self);
        }
        let mut i: usize = 0;
        while i < self.entries.len()
            invariant
                0 <= i <= self.entries@.len(),
                distinct_ids(self.entries@),
                forall|k: int| 0 <= k < i ==> #[trigger] self.entries@[k].id@ != id@,
            decreases self.entries@.len() - i,
        {
            if self.entries[i].id == id {
                proof {
                    lemma_position_at(self.entries@, i as int);
                }
                return Some(i);
            }
            proof {
                lemma_id_eq(self.entries@[i as int].id, id);
            }
            i = i + 1;
        }
        None
    }

    /// The flag that the batch holds for `id`, if it holds `id`.
    pub fn flag(&self, id: Id) -> (r: Option<bool>)
        ensures
            r == flag_of(self@, id@),
    {
        match self.index_of(id) {
            Some(i) => Some(self.entries[i].processed_before),
            None => None,
        }
    }

    /// Adds a group to a batch that is not full; a group whose id the batch
    /// already holds replaces the one held.
    pub fn insert(&mut self, group: TrackedGroup)
        requires
            old(self)@.len() < MAX_IDS_IN_BATCH_REQUEST,
        ensures
            position(old(self)@, group.id@) matches Some(i) ==> final(self)@ == old(self)@.update(
                i,
                group,
            ),
            position(old(self)@, group.id@) is None ==> final(self)@ == old(self)@.push(group),
    {
        proof {
            use_type_invariant(&*self);
        }
        match self.index_of(group.id) {
            Some(i) => {
                let ghost s = self.entries@;
                let mut entries = Vec::new();
                std::mem::swap(&mut entries, &mut self.entries);
                entries.set(i, group);
                proof {
                    assert forall|a: int, b: int|
                        0 <= a < b < entries@.len() implies #[trigger] entries@[a].id@
                        != #[trigger] entries@[b].id@ by {
                        if a != i && b != i {
                            assert(s[a].id@ != s[b].id@);
                        } else if a == i {
                            assert(s[a].id@ != s[b].id@);
                        } else {
                            assert(s[a].id@ != s[b].id@);
                        }
                    }
                }
                *self = Batch { entries };
            },
            None => {
                let ghost s = self.entries@;
                let mut entries = Vec::new();
                std::mem::swap(&mut entries, &mut self.entries);
                entries.push(group);
                proof {
                    assert forall|a: int, b: int|
                        0 <= a < b < entries@.len() implies #[trigger] entries@[a].id@
                        != #[trigger] entries@[b].id@ by {
                        if b == s.len() {
                            assert(!(0 <= a < s.len() && s[a].id@ == group.id@));
                        } else {
                            assert(s[a].id@ != s[b].id@);
                        }
                    }
                }
                *self = Batch { entries };
            },
        }
    }

    /// The ids to send to the batch endpoint: at most 100.
    pub fn query_ids(&self) -> (r: Vec<Id>)
        ensures
            id_values(r@) == group_ids(self@),
            r@.len() == self@.len(),
            r@.len() <= MAX_IDS_IN_BATCH_REQUEST,
            id_values(r@).no_duplicates(),
            distinct_ids(self@),
    {
        proof {
            use_type_invariant(self);
        }
        let mut r: Vec<Id> = Vec::new();
        let mut i: usize = 0;
        while i < self.entries.len()
            invariant
                0 <= i <= self.entries@.len(),
                id_values(r@) == group_ids(self.entries@.take(i as int)),
                r@.len() == i,
            decreases self.entries@.len() - i,
        {
            let ghost prev = r@;
            r.push(self.entries[i].id);
            proof {
                assert(self.entries@.take(i + 1) =~= self.entries@.take(i as int).push(
                    self.entries@[i as int],
                ));
                assert(id_values(r@) =~= id_values(prev).push(self.entries@[i as int].id@));
                assert(group_ids(self.entries@.take(i + 1)) =~= group_ids(
                    self.entries@.take(i as int),
                ).push(self.entries@[i as int].id@));
                assert(id_values(r@) =~= group_ids(self.entries@.take(i + 1)));
            }
            i = i + 1;
        }
        proof {
            assert(self.entries@.take(i as int) =~= self.entries@);
            let v = id_values(r@);
            assert forall|a: int, b: int| 0 <= a < v.len() && 0 <= b < v.len() && a != b implies v[a]
                != v[b] by {
                if a < b {
                    assert(self.entries@[a].id@ != self.entries@[b].id@);
                } else {
                    assert(self.entries@[b].id@ != self.entries@[a].id@);
                }
            }
        }
        r
    }

    /// The groups of the batch with their flags, to requeue after a failed
    /// call.
    pub fn contents(&self) -> (r: Vec<TrackedGroup>)
        ensures
            r@ == self@,
            distinct_ids(r@),
    {
        proof {
            use_type_invariant(self);
        }
        self.entries.clone()
    }

    /// Where the batch endpoint's answer `found` sends each entry: an entry
    /// without an owner whose id the batch held as seen goes to the detailed
    /// stage; any other entry whose id the batch holds goes back to the main
    /// batch queue, marked as seen. Ids that the answer leaves out do not
    /// exist and are dropped, as are entries for ids the batch does not hold.
    pub fn dispatch(&self, found: &Vec<BatchInfo>) -> (r: BatchDispatch)
        ensures
            id_values(r.promote@) == promoted(self@, found@),
            group_ids(r.requeue@) == requeued(self@, found@),
            forall|i: int| 0 <= i < r.requeue@.len() ==> #[trigger] r.requeue@[i].processed_before,
    {
        let mut promote: Vec<Id> = Vec::new();
        let mut requeue: Vec<TrackedGroup> = Vec::new();
        let mut k: usize = 0;
        while k < found.len()
            invariant
                0 <= k <= found@.len(),
                id_values(promote@) == promoted(self@, found@.take(k as int)),
                group_ids(requeue@) == requeued(self@, found@.take(k as int)),
                forall|i: int| 0 <= i < requeue@.len() ==> #[trigger] requeue@[i].processed_before,
            decreases found@.len() - k,
        {
            let entry = &found[k];
            let ghost prefix = found@.take(k + 1);
            proof {
                assert(prefix.drop_last() =~= found@.take(k as int));
                assert(prefix.last() == found@[k as int]);
            }
            match self.flag(entry.id) {
                Some(seen) => {
                    if entry.owner.is_none() && seen {
                        let ghost prev = promote@;
                        promote.push(entry.id);
                        proof {
                            assert(id_values(promote@) =~= id_values(prev).push(entry.id@));
                        }
                    } else {
                        let ghost prev = requeue@;
                        requeue.push(TrackedGroup { id: entry.id, processed_before: true });
                        proof {
                            assert(group_ids(requeue@) =~= group_ids(prev).push(entry.id@));
                        }
                    }
                },
                None => {},
            }
            k = k + 1;
        }
        proof {
            assert(found@.take(k as int) =~= found@);
        }
        BatchDispatch { promote, requeue }
    }
}

} // verus!
