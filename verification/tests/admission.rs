use turso_compio::bridge::{check_range, Caller, Endpoint, Operation, Queue};
use turso_compio::budget::{Budget, ReadBuffer, Reservation};
use turso_compio::driver::Status;
use turso_compio::error::Rejection;
use turso_compio::execution::{Failure, Syscall};
use turso_compio::Options;

type TestQueue = Queue<u32, u32>;

const HERE: Caller = Caller { same_thread: true, alive: true, runtime_fd: Some(7) };

fn connection(operations: Option<usize>, bytes: Option<usize>) -> (Endpoint, Budget, TestQueue) {
    let limits = Options { max_outstanding_operations: operations, max_retained_bytes: bytes };
    let (endpoint, budget, queue, _) = Endpoint::new(7, limits);
    (endpoint, budget, queue)
}

fn idle(capacity: usize) -> ReadBuffer {
    ReadBuffer { data: vec![9; capacity], capacity }
}

/// Puts an idle read buffer into the cache and charges it.
fn cache(queue: &mut TestQueue, budget: &mut Budget, capacity: usize) {
    queue.read_buffer = Some(idle(capacity));
    budget.bytes += capacity;
}

fn rejected(result: Result<Reservation, Rejection>) -> Rejection {
    match result {
        Ok(_) => panic!("admitted"),
        Err(rejection) => rejection,
    }
}

#[test]
fn ranges_fit_offsets_and_counts() {
    let last = i64::MAX as u64;
    let most = i32::MAX as usize;
    assert_eq!(check_range(0, most), Ok(()));
    assert_eq!(check_range(0, most + 1), Err(Rejection::RangeExceeded));
    assert_eq!(check_range(last, 0), Ok(()));
    assert_eq!(check_range(last - 10, 10), Ok(()));
    assert_eq!(check_range(last - 10, 11), Err(Rejection::RangeExceeded));
    assert_eq!(check_range(last + 1, 0), Err(Rejection::RangeExceeded));
    assert_eq!(check_range(u64::MAX, 1), Err(Rejection::RangeExceeded));
}

#[test]
fn calls_from_elsewhere_are_refused() {
    let (endpoint, mut budget, mut queue) = connection(None, None);
    let elsewhere = [
        Caller { same_thread: false, ..HERE },
        Caller { alive: false, ..HERE },
        Caller { runtime_fd: None, ..HERE },
        Caller { runtime_fd: Some(8), ..HERE },
    ];
    for caller in &elsewhere {
        assert_eq!(endpoint.check(caller), Err(Rejection::ForeignContext));
        let result = endpoint.reserve(caller, &mut budget, Some(&mut queue), 1);
        assert_eq!(rejected(result), Rejection::ForeignContext);
        let result = endpoint.reserve_read(caller, &mut budget, Some(&mut queue), 1);
        assert_eq!(rejected(result), Rejection::ForeignContext);
        assert_eq!((budget.operations, budget.bytes), (0, 0));
    }
    assert_eq!(endpoint.check(&HERE), Ok(()));
}

#[test]
fn a_limit_counts_outstanding_operations() {
    let (endpoint, mut budget, mut queue) = connection(Some(2), None);
    let first = endpoint.reserve(&HERE, &mut budget, Some(&mut queue), 0).ok().unwrap();
    let second = endpoint.reserve(&HERE, &mut budget, Some(&mut queue), 5).ok().unwrap();
    assert_eq!((budget.operations, budget.bytes), (2, 5));
    let third = endpoint.reserve(&HERE, &mut budget, Some(&mut queue), 0);
    assert_eq!(rejected(third), Rejection::LimitsExceeded { limits: budget.limits });
    assert_eq!((budget.operations, budget.bytes), (2, 5));
    first.discard(&mut budget);
    assert!(endpoint.reserve(&HERE, &mut budget, Some(&mut queue), 0).is_ok());
    second.discard(&mut budget);
    assert_eq!((budget.operations, budget.bytes), (1, 0));
}

#[test]
fn a_limit_counts_retained_bytes() {
    let (endpoint, mut budget, mut queue) = connection(None, Some(100));
    assert!(endpoint.reserve(&HERE, &mut budget, Some(&mut queue), 100).is_ok());
    let more = endpoint.reserve(&HERE, &mut budget, Some(&mut queue), 1);
    assert_eq!(rejected(more), Rejection::LimitsExceeded { limits: budget.limits });
    assert!(endpoint.reserve(&HERE, &mut budget, Some(&mut queue), 0).is_ok());
    assert_eq!((budget.operations, budget.bytes), (2, 100));
}

#[test]
fn overflow_is_refused_without_limits() {
    let (endpoint, mut budget, mut queue) = connection(None, None);
    assert!(endpoint.reserve(&HERE, &mut budget, Some(&mut queue), usize::MAX).is_ok());
    let more = endpoint.reserve(&HERE, &mut budget, Some(&mut queue), 1);
    assert_eq!(rejected(more), Rejection::LimitsExceeded { limits: Options::default() });
    budget.operations = usize::MAX;
    assert!(!budget.can_start());
    assert!(budget.can_retain(0));
    assert!(!budget.can_retain(1));
}

#[test]
fn an_idle_cache_gives_way() {
    let (endpoint, mut budget, mut queue) = connection(None, Some(100));
    cache(&mut queue, &mut budget, 80);
    let reservation = endpoint.reserve(&HERE, &mut budget, Some(&mut queue), 90).ok().unwrap();
    assert_eq!(reservation.bytes, 90);
    assert!(reservation.read_buffer.is_none());
    assert!(queue.read_buffer.is_none());
    assert_eq!(budget.bytes, 90);
}

#[test]
fn an_idle_cache_stays_where_the_bytes_fit() {
    let (endpoint, mut budget, mut queue) = connection(None, Some(100));
    cache(&mut queue, &mut budget, 80);
    assert!(endpoint.reserve(&HERE, &mut budget, Some(&mut queue), 20).is_ok());
    assert!(queue.read_buffer.is_some());
    assert_eq!(budget.bytes, 100);
}

#[test]
fn a_request_that_never_fits_costs_the_cache() {
    let (endpoint, mut budget, mut queue) = connection(None, Some(100));
    cache(&mut queue, &mut budget, 80);
    let result = endpoint.reserve(&HERE, &mut budget, Some(&mut queue), 101);
    assert_eq!(rejected(result), Rejection::LimitsExceeded { limits: budget.limits });
    assert!(queue.read_buffer.is_none());
    assert_eq!((budget.operations, budget.bytes), (0, 0));
}

#[test]
fn a_locked_queue_is_reported_when_it_is_needed() {
    let (endpoint, mut budget, _) = connection(None, Some(100));
    budget.bytes = 60;
    assert!(endpoint.reserve::<u32, u32>(&HERE, &mut budget, None, 40).is_ok());
    let result = endpoint.reserve::<u32, u32>(&HERE, &mut budget, None, 1);
    assert_eq!(rejected(result), Rejection::ReentrantQueue);
    let result = endpoint.reserve_read::<u32, u32>(&HERE, &mut budget, None, 0);
    assert_eq!(rejected(result), Rejection::ReentrantQueue);
    assert_eq!((budget.operations, budget.bytes), (1, 100));
}

#[test]
fn a_cached_buffer_is_not_charged_twice() {
    let (endpoint, mut budget, mut queue) = connection(None, Some(64));
    cache(&mut queue, &mut budget, 64);
    let reservation = endpoint.reserve_read(&HERE, &mut budget, Some(&mut queue), 64).ok().unwrap();
    assert_eq!(reservation.bytes, 0);
    assert_eq!(reservation.read_buffer.as_ref().unwrap().capacity, 64);
    assert!(queue.read_buffer.is_none());
    assert_eq!((budget.operations, budget.bytes), (1, 64));
    reservation.discard(&mut budget);
    assert_eq!((budget.operations, budget.bytes), (0, 0));
}

#[test]
fn a_small_cached_buffer_is_not_handed_over() {
    let (endpoint, mut budget, mut queue) = connection(None, None);
    cache(&mut queue, &mut budget, 10);
    let reservation = endpoint.reserve_read(&HERE, &mut budget, Some(&mut queue), 11).ok().unwrap();
    assert_eq!(reservation.bytes, 11);
    assert!(reservation.read_buffer.is_none());
    assert!(queue.read_buffer.is_some());
    assert_eq!(budget.bytes, 21);
}

#[test]
fn a_refused_read_gives_its_cached_buffer_back() {
    let (endpoint, mut budget, mut queue) = connection(Some(1), None);
    cache(&mut queue, &mut budget, 10);
    assert!(endpoint.reserve(&HERE, &mut budget, Some(&mut queue), 0).is_ok());
    let result = endpoint.reserve_read(&HERE, &mut budget, Some(&mut queue), 10);
    assert_eq!(rejected(result), Rejection::LimitsExceeded { limits: budget.limits });
    assert!(queue.read_buffer.is_none());
    assert_eq!((budget.operations, budget.bytes), (1, 0));
}

#[test]
fn jobs_leave_in_the_order_in_which_they_came() {
    let (endpoint, mut budget, mut queue) = connection(None, None);
    for name in 0..3u32 {
        let reservation = budget.charge(10);
        let queued =
            endpoint.enqueue(Some(&mut queue), 1, Operation::Sync, name, reservation);
        assert!(queued.is_ok());
    }
    for name in 0..3u32 {
        let job = queue.pop().unwrap();
        assert_eq!(job.completion, name);
        assert_eq!(job.file, 1);
        assert!(matches!(job.operation, Some(Operation::Sync)));
        assert_eq!(job.retire(&mut budget), name);
    }
    assert!(queue.pop().is_none());
    assert_eq!((budget.operations, budget.bytes), (0, 0));
}

#[test]
fn a_job_comes_back_from_a_locked_queue() {
    let (endpoint, mut budget, _) = connection(None, None);
    let reservation = budget.charge(10);
    let queued =
        endpoint.enqueue::<u32, u32>(None, 0, Operation::Truncate(5), 42, reservation);
    match queued {
        Ok(()) => panic!("queued"),
        Err((rejection, job)) => {
            assert_eq!(rejection, Rejection::ReentrantQueue);
            assert_eq!(job.retire(&mut budget), 42);
        },
    }
    assert_eq!((budget.operations, budget.bytes), (0, 0));
}

#[test]
fn an_abandoned_queue_gives_everything_back() {
    let (endpoint, mut budget, mut queue) = connection(None, None);
    cache(&mut queue, &mut budget, 30);
    for name in [5u32, 6] {
        let reservation = budget.charge(100);
        assert!(endpoint.enqueue(Some(&mut queue), 0, Operation::Sync, name, reservation).is_ok());
    }
    assert_eq!(queue.abandon(&mut budget), vec![5, 6]);
    assert!(queue.pop().is_none());
    assert!(queue.read_buffer.is_none());
    assert_eq!((budget.operations, budget.bytes), (0, 0));
}

#[test]
fn releasing_bytes_keeps_the_operation() {
    let mut budget = Budget::new(Options::default());
    let mut reservation = budget.charge(12);
    reservation.release_bytes(&mut budget);
    assert_eq!(reservation.bytes, 0);
    assert_eq!((budget.operations, budget.bytes), (1, 0));
    reservation.release_bytes(&mut budget);
    assert_eq!((budget.operations, budget.bytes), (1, 0));
}

#[test]
fn a_new_staging_buffer_takes_over_the_charge() {
    let mut budget = Budget::new(Options::default());
    let mut queue = TestQueue::new();
    let mut reservation = budget.charge(8);
    let buffer = reservation.stage(&mut queue, &mut budget, 8);
    assert_eq!(buffer.data, vec![0; 8]);
    assert_eq!(buffer.capacity, 8);
    assert_eq!(reservation.bytes, 0);
    assert_eq!((budget.operations, budget.bytes), (1, 8));
    queue.keep(buffer, &mut budget);
    reservation.discard(&mut budget);
    assert_eq!((budget.operations, budget.bytes), (0, 8));
    let kept = queue.read_buffer.take();
    budget.discard(kept);
    assert_eq!(budget.bytes, 0);
}

#[test]
fn a_cached_staging_buffer_is_reused() {
    let mut budget = Budget::new(Options::default());
    let mut queue = TestQueue::new();
    let mut reservation = budget.charge(4);
    cache(&mut queue, &mut budget, 6);
    let buffer = reservation.stage(&mut queue, &mut budget, 4);
    assert_eq!(buffer.data, vec![9; 4]);
    assert_eq!(buffer.capacity, 6);
    assert!(queue.read_buffer.is_none());
    assert_eq!((budget.operations, budget.bytes), (1, 6));
}

#[test]
fn a_cached_staging_buffer_that_is_too_small_is_given_back() {
    let mut budget = Budget::new(Options::default());
    let mut queue = TestQueue::new();
    let mut reservation = budget.charge(7);
    cache(&mut queue, &mut budget, 6);
    let buffer = reservation.stage(&mut queue, &mut budget, 7);
    assert_eq!(buffer.data, vec![0; 7]);
    assert_eq!(buffer.capacity, 7);
    assert!(queue.read_buffer.is_none());
    assert_eq!(budget.bytes, 7);
}

#[test]
fn a_buffer_that_was_handed_over_comes_before_the_cached_one() {
    let mut budget = Budget::new(Options::default());
    let mut queue = TestQueue::new();
    let mut reservation = budget.charge(0);
    reservation.read_buffer = Some(ReadBuffer { data: vec![1, 2], capacity: 5 });
    budget.bytes = 5;
    cache(&mut queue, &mut budget, 6);
    let buffer = reservation.stage(&mut queue, &mut budget, 4);
    assert_eq!(buffer.data, vec![1, 2, 0, 0]);
    assert_eq!(buffer.capacity, 5);
    assert_eq!(budget.bytes, 11);
    queue.keep(buffer, &mut budget);
    assert_eq!(queue.read_buffer.as_ref().unwrap().capacity, 5);
    assert_eq!(budget.bytes, 5);
}

#[test]
fn stale_bytes_behind_a_short_read_are_zeroed() {
    let mut buffer = ReadBuffer { data: vec![1, 2, 3, 4], capacity: 9 };
    buffer.zero_from(2);
    assert_eq!(buffer.data, vec![1, 2, 0, 0]);
    buffer.zero_from(4);
    assert_eq!(buffer.data, vec![1, 2, 0, 0]);
    assert_eq!(buffer.capacity, 9);
}

#[test]
fn only_a_pending_successful_read_is_delivered() {
    let pending = Status { finished: false, failed: false };
    let finished = Status { finished: true, failed: false };
    let failed = Status { finished: false, failed: true };
    let read: Result<i32, Failure<u8>> = Ok(1);
    let broken: Result<i32, Failure<u8>> = Err(Failure::Io { kind: 5, syscall: Syscall::Pread });
    let mut buffer = ReadBuffer { data: vec![1, 2, 3], capacity: 3 };
    assert!(!buffer.deliver(&broken, &pending));
    assert!(!buffer.deliver(&read, &finished));
    assert!(!buffer.deliver(&read, &failed));
    assert_eq!(buffer.data, vec![1, 2, 3]);
    assert!(buffer.deliver(&read, &pending));
    assert_eq!(buffer.data, vec![1, 0, 0]);
}
