use roblox_group_finder::api::{ApiError, Error, TransportError};
use roblox_group_finder::batch::{Batch, TrackedGroup};
use roblox_group_finder::groups::{
    BatchInfo, BatchOwner, DetailedInfo, DetailedOwner, OwnerType, Timestamp,
};
use roblox_group_finder::ids::{Id, MAX_GROUP_ID};
use roblox_group_finder::partition::get_partitioning_ids;
use roblox_group_finder::prober::Prober;
use roblox_group_finder::worker::{
    after_batch_call, after_detailed_call, pacing_delay, RetryCounter, WorkerStep,
};

fn id(v: u64) -> Id {
    Id::new(v).unwrap()
}

fn values(ids: &[Id]) -> Vec<u64> {
    ids.iter().map(|i| i.get()).collect()
}

fn entry(v: u64, owner: Option<u64>) -> BatchInfo {
    BatchInfo {
        id: id(v),
        name: format!("group {v}"),
        description: String::new(),
        owner: owner.map(|o| BatchOwner { id: id(o), owner_type: OwnerType::User }),
        created: Timestamp { unix_millis: 0 },
        has_verified_badge: false,
    }
}

fn queued(v: u64, processed_before: bool) -> TrackedGroup {
    TrackedGroup { id: id(v), processed_before }
}

fn rate_limited() -> Error {
    Error::Api(ApiError {
        code: 0,
        message: "Too many requests".to_string(),
        user_facing_message: None,
    })
}

fn transport() -> Error {
    Error::Transport(TransportError { message: "connection reset".to_string() })
}

#[test]
fn id_bounds() {
    assert!(Id::new(0).is_none());
    assert_eq!(Id::new(1).unwrap().get(), 1);
    assert_eq!(Id::new(MAX_GROUP_ID).unwrap().get(), 9223372036854775807);
    assert!(Id::new(MAX_GROUP_ID + 1).is_none());
    assert!(Id::new(u64::MAX).is_none());
    assert_eq!(Id::min_id().get(), 1);
    assert_eq!(Id::max_id().get(), i64::MAX as u64);
}

#[test]
fn tracked_group_default() {
    let g = TrackedGroup::default();
    assert_eq!(g.id.get(), 1);
    assert!(!g.processed_before);
}

#[test]
fn partitioning_small_interval_enumerates() {
    let r = get_partitioning_ids(id(1), id(10), 100);
    assert_eq!(values(&r), vec![2, 3, 4, 5, 6, 7, 8, 9]);
    let r = get_partitioning_ids(id(5), id(9), 3);
    assert_eq!(values(&r), vec![6, 7, 8]);
}

#[test]
fn partitioning_adjacent_is_empty() {
    assert!(get_partitioning_ids(id(4), id(5), 7).is_empty());
}

#[test]
fn partitioning_even_spacing() {
    // 20 ids between 0+1 and 21 excluded: (1, 22) holds 20 ids, 3 points.
    let r = get_partitioning_ids(id(1), id(22), 3);
    // space 20, 17 left over for 4 gaps: sizes 5, 4, 4, 4.
    assert_eq!(values(&r), vec![7, 12, 17]);
    let r = get_partitioning_ids(id(1), id(12), 2);
    // space 10, 8 left for 3 gaps: 3, 3, 2.
    assert_eq!(values(&r), vec![5, 9]);
}

#[test]
fn partitioning_whole_space() {
    let r = get_partitioning_ids(Id::min_id(), Id::max_id(), 100);
    assert_eq!(r.len(), 100);
    let v = values(&r);
    for w in v.windows(2) {
        assert!(w[0] < w[1]);
    }
    assert!(v[0] > 1);
    assert!(*v.last().unwrap() < MAX_GROUP_ID);
    let gaps: Vec<u64> = std::iter::once(v[0] - 1)
        .chain(v.windows(2).map(|w| w[1] - w[0]))
        .chain(std::iter::once(MAX_GROUP_ID - v[99]))
        .collect();
    let min = *gaps.iter().min().unwrap();
    let max = *gaps.iter().max().unwrap();
    assert!(max - min <= 1);
}

#[test]
fn partitioning_single_point() {
    let r = get_partitioning_ids(id(1), id(100), 1);
    // space 98, 97 left for 2 gaps: 49 and 48.
    assert_eq!(values(&r), vec![51]);
}

fn probe(exists: impl Fn(u64) -> bool, mut p: Prober) -> u64 {
    while !p.is_done() {
        let q = p.next_query();
        assert!(q.len() <= 100);
        let found: Vec<Id> = q.iter().copied().filter(|i| exists(i.get())).collect();
        assert!(p.advance(&found));
    }
    p.highest().get()
}

#[test]
fn prober_finds_five() {
    let p = Prober::with_bounds(id(1), id(10)).unwrap();
    assert_eq!(probe(|v| [1, 2, 5].contains(&v), p), 5);
}

#[test]
fn prober_whole_space() {
    assert_eq!(probe(|v| v <= 123_457, Prober::new()), 123_457);
}

#[test]
fn prober_nothing_above_low() {
    let p = Prober::with_bounds(id(1), id(50)).unwrap();
    assert_eq!(probe(|v| v == 1, p), 1);
}

#[test]
fn prober_rejects_unqueried_answer() {
    let mut p = Prober::with_bounds(id(1), id(10)).unwrap();
    assert!(!p.advance(&vec![id(42)]));
    let (low, high) = p.bounds();
    assert_eq!((low.get(), high.get()), (1, 10));
    assert!(Prober::with_bounds(id(3), id(3)).is_none());
}

#[test]
fn prober_empty_answer_lowers_high() {
    let mut p = Prober::with_bounds(id(1), id(10)).unwrap();
    assert!(p.advance(&Vec::new()));
    let (low, high) = p.bounds();
    assert_eq!((low.get(), high.get()), (1, 2));
    assert!(p.is_done());
    assert!(!p.advance(&Vec::new()));
}

#[test]
fn batch_keeps_ids_distinct() {
    let mut b = Batch::new();
    assert!(b.is_empty());
    b.insert(queued(7, false));
    b.insert(queued(8, false));
    b.insert(queued(7, true));
    assert_eq!(b.len(), 2);
    assert_eq!(b.flag(id(7)), Some(true));
    assert_eq!(b.flag(id(8)), Some(false));
    assert_eq!(b.flag(id(9)), None);
    assert_eq!(values(&b.query_ids()), vec![7, 8]);
}

#[test]
fn batch_fills_at_one_hundred() {
    let mut b = Batch::new();
    for v in 1..=100 {
        assert!(!b.is_full());
        b.insert(queued(v, false));
    }
    assert!(b.is_full());
    assert_eq!(b.query_ids().len(), 100);
}

#[test]
fn discovery_path() {
    let mut batch = Batch::new();
    for v in 1..=3 {
        batch.insert(queued(v, false));
    }
    assert_eq!(values(&batch.query_ids()), vec![1, 2, 3]);
    let answer = vec![entry(1, None), entry(3, None)];
    let first = batch.dispatch(&answer);
    assert!(first.promote.is_empty());
    assert_eq!(first.requeue, vec![queued(1, true), queued(3, true)]);

    let mut second_batch = Batch::new();
    for g in first.requeue {
        second_batch.insert(g);
    }
    let second = second_batch.dispatch(&answer);
    assert_eq!(values(&second.promote), vec![1, 3]);
    assert!(second.requeue.is_empty());
}

#[test]
fn owned_groups_go_back_to_main() {
    let mut batch = Batch::new();
    batch.insert(queued(4, true));
    batch.insert(queued(5, false));
    let d = batch.dispatch(&vec![entry(4, Some(99)), entry(5, Some(98)), entry(6, None)]);
    assert!(d.promote.is_empty());
    assert_eq!(d.requeue, vec![queued(4, true), queued(5, true)]);
}

#[test]
fn rate_limit_pacing() {
    let mut retry = RetryCounter::new();
    let mut batch = Batch::new();
    batch.insert(queued(1, false));
    batch.insert(queued(2, true));
    for _ in 0..3 {
        let out = after_batch_call(&mut retry, &batch, Err(rate_limited()), 5);
        assert_eq!(out.step, WorkerStep::Continue);
        assert_eq!(out.requeue_priority, vec![queued(1, false), queued(2, true)]);
        assert_eq!(retry.count, 0);
    }
    let out = after_batch_call(&mut retry, &batch, Ok(vec![entry(1, None)]), 5);
    assert_eq!(out.step, WorkerStep::Pace);
    assert_eq!(out.checked, 1);
    assert!(out.requeue_priority.is_empty());
    assert_eq!(retry.count, 0);
}

#[test]
fn dead_proxy() {
    let retry_limit = 5;
    let mut retry = RetryCounter::new();
    let mut batch = Batch::new();
    batch.insert(queued(10, true));
    let mut steps = Vec::new();
    for _ in 0..retry_limit + 1 {
        let out = after_batch_call(&mut retry, &batch, Err(transport()), retry_limit);
        assert_eq!(out.requeue_priority, vec![queued(10, true)]);
        steps.push(out.step);
    }
    assert_eq!(steps[..retry_limit], vec![WorkerStep::Pace; retry_limit][..]);
    assert_eq!(steps[retry_limit], WorkerStep::Exit);
}

#[test]
fn success_resets_failures() {
    let mut retry = RetryCounter::new();
    let batch = Batch::new();
    after_batch_call(&mut retry, &batch, Err(transport()), 3);
    after_batch_call(&mut retry, &batch, Err(transport()), 3);
    assert_eq!(retry.count, 2);
    after_batch_call(&mut retry, &batch, Ok(Vec::new()), 3);
    assert_eq!(retry.count, 0);
}

#[test]
fn zero_retry_limit_exits_at_first_failure() {
    let mut retry = RetryCounter::new();
    assert_eq!(retry.on_failure(&transport(), 0), WorkerStep::Exit);
}

#[test]
fn pacing_saturates() {
    assert_eq!(pacing_delay(625, 100), 525);
    assert_eq!(pacing_delay(625, 625), 0);
    assert_eq!(pacing_delay(625, 9000), 0);
}

fn detailed(owner: bool, public_entry_allowed: bool, is_locked: bool) -> DetailedInfo {
    DetailedInfo {
        id: id(42),
        name: "g".to_string(),
        description: String::new(),
        owner: if owner {
            Some(DetailedOwner {
                has_verified_badge: false,
                user_id: id(7),
                username: "u".to_string(),
                display_name: "u".to_string(),
            })
        } else {
            None
        },
        shout: None,
        member_count: 0,
        is_builders_club_only: false,
        public_entry_allowed,
        has_verified_badge: false,
        is_locked,
    }
}

#[test]
fn detailed_stage_gates_claims() {
    let mut retry = RetryCounter::new();
    let out = after_detailed_call(&mut retry, &Ok(detailed(false, true, false)), false, 5);
    assert!(out.forward && !out.requeue);
    let out = after_detailed_call(&mut retry, &Ok(detailed(false, true, false)), true, 5);
    assert!(!out.forward);
    let out = after_detailed_call(&mut retry, &Ok(detailed(true, true, false)), false, 5);
    assert!(!out.forward);
    let out = after_detailed_call(&mut retry, &Ok(detailed(false, false, false)), false, 5);
    assert!(!out.forward);
    let out = after_detailed_call(&mut retry, &Ok(detailed(false, true, true)), false, 5);
    assert!(!out.forward);
    let out = after_detailed_call(&mut retry, &Err(rate_limited()), false, 5);
    assert!(out.requeue && !out.forward);
    assert_eq!(out.step, WorkerStep::Continue);
    let out = after_detailed_call(&mut retry, &Err(transport()), false, 5);
    assert_eq!(out.step, WorkerStep::Pace);
    assert_eq!(retry.count, 1);
}
