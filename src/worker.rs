use vstd::prelude::*;

use crate::api::{is_rate_limit, Error};
use crate::batch::{group_ids, requeued, promoted, Batch, TrackedGroup};
use crate::groups::{BatchInfo, DetailedInfo};
use crate::ids::Id;
use crate::partition::id_values;

verus! {

/// What a scanner worker does after handling a call.
#[derive(Debug, Clone, Copy, PartialEq, Eq, Structural)]
pub enum WorkerStep {
    /// Go on at once, without pacing (after a rate-limit answer).
    Continue,
    /// Sleep out the rest of the pacing interval, then go on.
    Pace,
    /// Stop: the proxy is deemed dead.
    Exit,
}

/// Consecutive failures of a worker's proxy, rate-limit answers aside.
#[derive(Debug, Clone, Copy, PartialEq, Eq, Structural)]
pub struct RetryCounter {
    pub count: usize,
}

/// The step after a failed call with `count` failures before it: a rate
/// limit goes on at once and is not counted; otherwise the worker exits
/// once `retry_limit` failures were counted, and paces before retrying
/// until then.
pub open spec fn failure_step(error: Error, count: int, retry_limit: int) -> WorkerStep {
    if is_rate_limit(error) {
        WorkerStep::Continue
    } else if count >= retry_limit {
        WorkerStep::Exit
    } else {
        WorkerStep::Pace
    }
}

/// The failure count after a failed call.
pub open spec fn failure_count(error: Error, count: int, retry_limit: int) -> int {
    if failure_step(error, count, retry_limit) == WorkerStep::Pace {
        count + 1
    } else {
        count
    }
}

/// The failure count after `k` consecutive failures with `error`, from 0.
pub open spec fn count_after(error: Error, retry_limit: int, k: nat) -> int
    decreases k,
{
    if k == 0 {
        0
    } else {
        failure_count(error, count_after(error, retry_limit, (k - 1) as nat), retry_limit)
    }
}

/// A proxy that keeps failing, other than by rate limits, is given up on
/// exactly at its `retry_limit + 1`-th consecutive failure: the failures
/// before it each pause and count one up.
pub proof fn lemma_dead_proxy_exits(error: Error, retry_limit: int, k: nat)
    requires
        !is_rate_limit(error),
        0 <= retry_limit,
        1 <= k <= retry_limit + 1,
    ensures
        count_after(error, retry_limit, (k - 1) as nat) == k - 1,
        failure_step(error, k - 1, retry_limit) == if k <= retry_limit {
            WorkerStep::Pace
        } else {
            WorkerStep::Exit
        },
    decreases k,
{
    if k > 1 {
        lemma_dead_proxy_exits(error, retry_limit, (k - 1) as nat);
    }
}

impl RetryCounter {
    pub fn new() -> (r: RetryCounter)
        ensures
            r.count == 0,
    {
        RetryCounter { count: 0 }
    }

    /// A call succeeded: the count starts over.
    pub fn on_success(&mut self)
        ensures
            final(self).count == 0,
    {
        self.count = 0;
    }

    /// A call failed with `error`.
    pub fn on_failure(&mut self, error: &Error, retry_limit: usize) -> (r: WorkerStep)
        ensures
            r == failure_step(*error, old(self).count as int, retry_limit as int),
            final(self).count == failure_count(*error, old(self).count as int, retry_limit as int),
            final(self).count <= retry_limit || final(self).count == old(self).count,
    {
        if error.is_rate_limited() {
            WorkerStep::Continue
        } else if self.count >= retry_limit {
            WorkerStep::Exit
        } else {
            self.count = self.count + 1;
            WorkerStep::Pace
        }
    }
}

/// How long to sleep after a call that took `elapsed_ms`, so that calls
/// start at most once per `wait_ms`: the rest of the interval, or nothing.
pub fn pacing_delay(wait_ms: u64, elapsed_ms: u64) -> (r: u64)
    ensures
        r == if elapsed_ms >= wait_ms {
            0
        } else {
            wait_ms - elapsed_ms
        },
{
    wait_ms.saturating_sub(elapsed_ms)
}

/// What the batch stage does after one call of the batch endpoint.
pub struct BatchOutcome {
    /// Ids for the main detailed queue.
    pub promote: Vec<Id>,
    /// Groups for the main batch queue.
    pub requeue_main: Vec<TrackedGroup>,
    /// Groups for the priority batch queue.
    pub requeue_priority: Vec<TrackedGroup>,
    /// How many entries the answer held, for the throughput counter.
    pub checked: usize,
    pub step: WorkerStep,
}

/// Handles the batch endpoint's answer to `batch`. On success the entries
/// are dispatched (see `Batch::dispatch`), the failure count starts over
/// and the worker paces. On failure every group of the batch goes to the
/// priority queue with its flag, and the retry policy decides the step.
pub fn after_batch_call(
    retry: &mut RetryCounter,
    batch: &Batch,
    response: Result<Vec<BatchInfo>, Error>,
    retry_limit: usize,
) -> (r: BatchOutcome)
    ensures
        response matches Ok(found) ==> {
            &&& id_values(r.promote@) == promoted(batch@, found@)
            &&& group_ids(r.requeue_main@) == requeued(batch@, found@)
            &&& forall|i: int|
                0 <= i < r.requeue_main@.len() ==> #[trigger] r.requeue_main@[i].processed_before
            &&& r.requeue_priority@.len() == 0
            &&& r.checked == found@.len()
            &&& r.step == WorkerStep::Pace
            &&& final(retry).count == 0
        },
        response matches Err(e) ==> {
            &&& r.promote@.len() == 0
            &&& r.requeue_main@.len() == 0
            &&& r.requeue_priority@ == batch@
            &&& r.checked == 0
            &&& r.step == failure_step(e, old(retry).count as int, retry_limit as int)
            &&& final(retry).count == failure_count(e, old(retry).count as int, retry_limit as int)
        },
{
    match response {
        Ok(found) => {
            retry.on_success();
            let d = batch.dispatch(&found);
            BatchOutcome {
                promote: d.promote,
                requeue_main: d.requeue,
                requeue_priority: Vec::new(),
                checked: found.len(),
                step: WorkerStep::Pace,
            }
        },
        Err(error) => {
            let step = retry.on_failure(&error, retry_limit);
            BatchOutcome {
                promote: Vec::new(),
                requeue_main: Vec::new(),
                requeue_priority: batch.contents(),
                checked: 0,
                step,
            }
        },
    }
}

/// What the detailed stage does after one call of the per-group endpoint.
#[derive(Debug, Clone, Copy, PartialEq, Eq, Structural)]
pub struct DetailedOutcome {
    /// Send the id to the claim queue.
    pub forward: bool,
    /// Put the id back on the priority detailed queue.
    pub requeue: bool,
    pub step: WorkerStep,
}

/// Handles the per-group endpoint's answer. A claimable group goes to the
/// claim queue unless that queue is full; any other answer drops the id.
/// On failure the id goes back to the priority queue and the retry policy
/// decides the step.
pub fn after_detailed_call(
    retry: &mut RetryCounter,
    response: &Result<DetailedInfo, Error>,
    claim_queue_full: bool,
    retry_limit: usize,
) -> (r: DetailedOutcome)
    ensures
        response matches Ok(info) ==> r == (DetailedOutcome {
            forward: !claim_queue_full && info.claimable(),
            requeue: false,
            step: WorkerStep::Pace,
        }) && final(retry).count == 0,
        response matches Err(e) ==> r == (DetailedOutcome {
            forward: false,
            requeue: true,
            step: failure_step(*e, old(retry).count as int, retry_limit as int),
        }) && final(retry).count == failure_count(
            *e,
            old(retry).count as int,
            retry_limit as int,
        ),
{
    match response {
        Ok(info) => {
            retry.on_success();
            let forward = !claim_queue_full && info.is_claimable();
            DetailedOutcome { forward, requeue: false, step: WorkerStep::Pace }
        },
        Err(error) => {
            let step = retry.on_failure(error, retry_limit);
            DetailedOutcome { forward: false, requeue: true, step }
        },
    }
}

} // verus!
