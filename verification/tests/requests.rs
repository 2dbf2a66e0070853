use std::sync::Arc;

use turso_compio::adapter::{CompioIo, WaitError};
use turso_compio::bridge::{Caller, Endpoint, Operation, Queue};
use turso_compio::budget::{Budget, ReadBuffer};
use turso_compio::buffer::{lengths, measure, BufferShape, Retention};
use turso_compio::driver::Status;
use turso_compio::error::Rejection;
use turso_compio::file::{DiskFile, MAX_WRITE_BUFFERS};
use turso_compio::filesystem::{FileId, FileState};
use turso_compio::Options;

type TestQueue = Queue<u32, u32>;

const HERE: Caller = Caller { same_thread: true, alive: true, runtime_fd: Some(3) };
const GONE: Caller = Caller { same_thread: true, alive: false, runtime_fd: Some(3) };
const DATABASE: DiskFile = DiskFile { index: 0 };
const WAL: DiskFile = DiskFile { index: 1 };

fn connection(operations: Option<usize>, bytes: Option<usize>) -> (Endpoint, Budget, TestQueue) {
    let limits = Options { max_outstanding_operations: operations, max_retained_bytes: bytes };
    let (endpoint, budget, queue, _) = Endpoint::new(3, limits);
    (endpoint, budget, queue)
}

fn heap(length: usize) -> BufferShape {
    BufferShape::Heap { length }
}

fn files() -> (FileState, FileState) {
    let database =
        FileState { path: "d/x.db".to_owned(), id: FileId { dev: 1, ino: 10 }, size: 4096 };
    let wal =
        FileState { path: "d/x.db-wal".to_owned(), id: FileId { dev: 1, ino: 11 }, size: 32 };
    (database, wal)
}

fn adapter() -> CompioIo {
    CompioIo { endpoint: Endpoint { runtime_fd: 3 } }
}

fn refusal<T>(result: Result<T, Rejection>) -> Rejection {
    match result {
        Ok(_) => panic!("admitted"),
        Err(rejection) => rejection,
    }
}

#[test]
fn the_shape_of_a_buffer_is_read_off_it() {
    assert_eq!(BufferShape::of(&turso::core::Buffer::new(vec![0; 40])), heap(40));
    let shared = Arc::new(vec![0u8; 30].into_boxed_slice());
    assert_eq!(
        BufferShape::of(&turso::core::Buffer::new_shared(shared.clone())),
        BufferShape::Shared { length: 30 },
    );
    let view = turso::core::Buffer::new_shared_data(turso::core::io::SharedBufferData::new_view(shared, 12));
    assert_eq!(BufferShape::of(&view), BufferShape::SharedView { length: 18 });
    assert_eq!(
        BufferShape::of(&turso::core::Buffer::new_with_start(vec![0; 40], 15)),
        BufferShape::HeapView { allocation: 40, start: 15 },
    );
}

#[test]
fn the_shape_of_a_pooled_buffer_is_its_slot() {
    let io: Arc<dyn turso::core::IO> = Arc::new(turso::core::MemoryIO::new());
    let pool = turso::core::BufferPool::begin_init(&io, turso::core::BufferPool::TEST_ARENA_SIZE);
    pool.finalize_with_page_size(turso::core::BufferPool::DEFAULT_PAGE_SIZE).unwrap();
    let page = pool.get_page();
    let shape = BufferShape::of(&page);
    assert_eq!(shape.length(), page.len());
    match page {
        turso::core::Buffer::Pooled(_) => assert_eq!(shape, BufferShape::Pooled { length: 4096 }),
        _ => assert_eq!(shape, heap(4096)),
    }
}

#[test]
fn a_view_exposes_its_tail_and_is_charged_whole() {
    let view = BufferShape::HeapView { allocation: 40, start: 15 };
    assert!(view.is_valid());
    assert_eq!((view.length(), view.allocation()), (25, 40));
    assert!(!BufferShape::HeapView { allocation: 4, start: 5 }.is_valid());
    let shared = BufferShape::SharedView { length: 9 };
    assert_eq!((shared.length(), shared.allocation()), (9, 9));
    assert!(shared.is_immutable());
    assert!(BufferShape::Shared { length: 9 }.is_immutable());
    assert!(!view.is_immutable());
    assert!(!BufferShape::Pooled { length: 9 }.is_immutable());
}

#[test]
fn lengths_and_charges_add_up() {
    let shapes = vec![heap(3), BufferShape::HeapView { allocation: 10, start: 6 }, heap(0)];
    assert_eq!(measure(&shapes), Ok((7, 13)));
    assert_eq!(lengths(&shapes), vec![3, 4, 0]);
    assert_eq!(measure(&Vec::new()), Ok((0, 0)));
}

#[test]
fn sums_that_overflow_are_told_apart() {
    let long = vec![heap(usize::MAX), heap(1)];
    assert_eq!(measure(&long), Err(Rejection::LengthOverflow));
    let hidden = BufferShape::HeapView { allocation: usize::MAX, start: usize::MAX };
    assert_eq!(measure(&vec![heap(1), hidden]), Err(Rejection::AllocationOverflow));
    assert_eq!(
        measure(&vec![heap(1), hidden, heap(usize::MAX)]),
        Err(Rejection::AllocationOverflow),
    );
}

#[test]
fn buffers_are_kept_only_where_nobody_can_write_them() {
    let view = BufferShape::SharedView { length: 5 };
    let shared = BufferShape::Shared { length: 5 };
    assert_eq!(Retention::from_buffer(&view, true), Retention::Snapshot);
    assert_eq!(Retention::from_buffer(&view, false), Retention::Snapshot);
    assert_eq!(Retention::from_buffer(&shared, true), Retention::Owned);
    assert_eq!(Retention::from_buffer(&shared, false), Retention::Shared);
    let pooled = BufferShape::Pooled { length: 5 };
    let tail = BufferShape::HeapView { allocation: 9, start: 4 };
    for shape in [heap(5), pooled, tail] {
        assert_eq!(Retention::from_buffer(&shape, true), Retention::Owned);
        assert_eq!(Retention::from_buffer(&shape, false), Retention::Snapshot);
    }
}

#[test]
fn a_write_is_charged_for_its_allocations() {
    let (endpoint, mut budget, mut queue) = connection(None, None);
    let shapes = vec![heap(3), BufferShape::HeapView { allocation: 10, start: 6 }];
    let grant =
        WAL.write(&endpoint, &HERE, &mut budget, Some(&mut queue), 100, &shapes).ok().unwrap();
    assert_eq!(grant.offset, 100);
    assert_eq!(grant.lengths, vec![3, 4]);
    assert_eq!(grant.reservation.bytes, 13);
    assert_eq!((budget.operations, budget.bytes), (1, 13));
    let (operation, reservation) = grant.with_buffers(vec![70u32, 71]);
    let queued = WAL.submit(&endpoint, Some(&mut queue), operation, 8, reservation);
    assert!(queued.is_ok());
    let job = queue.pop().unwrap();
    assert_eq!((job.file, job.completion), (1, 8));
    match job.operation {
        Some(Operation::Write { offset, buffers, lengths }) => {
            assert_eq!((offset, buffers, lengths), (100, vec![70, 71], vec![3, 4]));
        },
        _ => panic!("not a write"),
    }
}

#[test]
fn a_write_is_refused_for_the_first_reason() {
    let (endpoint, mut budget, mut queue) = connection(None, Some(10));
    let mut write = |caller: &Caller, offset: u64, shapes: Vec<BufferShape>| {
        refusal(DATABASE.write(&endpoint, caller, &mut budget, Some(&mut queue), offset, &shapes))
    };
    let many = vec![heap(0); MAX_WRITE_BUFFERS + 1];
    assert_eq!(write(&GONE, 0, many.clone()), Rejection::ForeignContext);
    assert_eq!(write(&HERE, u64::MAX, many), Rejection::TooManyBuffers);
    assert_eq!(write(&HERE, u64::MAX, vec![heap(usize::MAX); 2]), Rejection::LengthOverflow);
    assert_eq!(write(&HERE, u64::MAX, vec![heap(11)]), Rejection::RangeExceeded);
    assert_eq!(
        write(&HERE, 0, vec![heap(11)]),
        Rejection::LimitsExceeded {
            limits: Options { max_outstanding_operations: None, max_retained_bytes: Some(10) },
        },
    );
    assert_eq!((budget.operations, budget.bytes), (0, 0));
}

#[test]
fn a_write_counts_its_buffers_before_it_measures_them() {
    let (endpoint, mut budget, mut queue) = connection(None, None);
    let broken = vec![BufferShape::HeapView { allocation: 4, start: 5 }; MAX_WRITE_BUFFERS + 1];
    let result = DATABASE.write(&endpoint, &HERE, &mut budget, Some(&mut queue), 0, &broken);
    assert_eq!(refusal(result), Rejection::TooManyBuffers);
    let result = DATABASE.write(&endpoint, &GONE, &mut budget, Some(&mut queue), 0, &broken);
    assert_eq!(refusal(result), Rejection::ForeignContext);
}

#[test]
fn a_granted_read_leaves_the_queue_as_it_was_admitted() {
    let (endpoint, mut budget, mut queue) = connection(None, None);
    let result = WAL.pread(&endpoint, &HERE, &mut budget, Some(&mut queue), 24, &heap(100));
    let (operation, reservation) = result.ok().unwrap();
    assert!(WAL.submit(&endpoint, Some(&mut queue), operation, 6, reservation).is_ok());
    let job = queue.pop().unwrap();
    assert!(matches!(job.operation, Some(Operation::Read { offset: 24, length: 100 })));
    assert_eq!(job.reservation.unwrap().bytes, 100);
}

#[test]
fn a_write_may_have_as_many_buffers_as_the_limit() {
    let (endpoint, mut budget, mut queue) = connection(None, None);
    let shapes = vec![heap(1); MAX_WRITE_BUFFERS];
    let result = DATABASE.write(&endpoint, &HERE, &mut budget, Some(&mut queue), 0, &shapes);
    assert_eq!(result.ok().unwrap().reservation.bytes, 1024);
}

#[test]
fn a_read_is_charged_for_its_staging_buffer() {
    let (endpoint, mut budget, mut queue) = connection(None, None);
    let result =
        DATABASE.pread(&endpoint, &HERE, &mut budget, Some(&mut queue), 512, &heap(4096));
    let (operation, reservation) = result.ok().unwrap();
    assert!(matches!(operation, Operation::Read { offset: 512, length: 4096 }));
    assert_eq!(reservation.bytes, 4096);
    assert_eq!((budget.operations, budget.bytes), (1, 4096));
}

#[test]
fn a_read_takes_the_cached_buffer() {
    let (endpoint, mut budget, mut queue) = connection(None, Some(100));
    queue.read_buffer = Some(ReadBuffer { data: vec![0; 100], capacity: 100 });
    budget.bytes = 100;
    let result = DATABASE.pread(&endpoint, &HERE, &mut budget, Some(&mut queue), 0, &heap(60));
    let (_, reservation) = result.ok().unwrap();
    assert_eq!(reservation.bytes, 0);
    assert_eq!(reservation.read_buffer.unwrap().capacity, 100);
    assert_eq!((budget.operations, budget.bytes), (1, 100));
}

#[test]
fn a_read_is_refused_for_the_first_reason() {
    let (endpoint, mut budget, mut queue) = connection(Some(1), None);
    budget.operations = 1;
    let limits = budget.limits;
    let mut read = |caller: &Caller, offset: u64, shape: BufferShape| {
        refusal(DATABASE.pread(&endpoint, caller, &mut budget, Some(&mut queue), offset, &shape))
    };
    let shared = BufferShape::Shared { length: 1 };
    let view = BufferShape::SharedView { length: 1 };
    assert_eq!(read(&GONE, u64::MAX, shared), Rejection::ForeignContext);
    assert_eq!(read(&HERE, u64::MAX, shared), Rejection::ImmutableReadBuffer);
    assert_eq!(read(&HERE, u64::MAX, view), Rejection::ImmutableReadBuffer);
    assert_eq!(read(&HERE, u64::MAX, heap(1)), Rejection::RangeExceeded);
    assert_eq!(read(&HERE, 0, heap(1)), Rejection::LimitsExceeded { limits });
    let locked = DATABASE.pread::<u32, u32>(&endpoint, &HERE, &mut budget, None, 0, &heap(1));
    assert_eq!(refusal(locked), Rejection::ReentrantQueue);
}

#[test]
fn barriers_and_truncations_count_as_operations() {
    let (endpoint, mut budget, mut queue) = connection(Some(2), None);
    let (sync, _) =
        DATABASE.sync(&endpoint, &HERE, &mut budget, Some(&mut queue)).ok().unwrap();
    assert!(matches!(sync, Operation::Sync));
    let (truncate, _) =
        DATABASE.truncate(&endpoint, &HERE, &mut budget, Some(&mut queue), 9).ok().unwrap();
    assert!(matches!(truncate, Operation::Truncate(9)));
    assert_eq!((budget.operations, budget.bytes), (2, 0));
    let limits = budget.limits;
    let sync = DATABASE.sync(&endpoint, &HERE, &mut budget, Some(&mut queue));
    assert_eq!(refusal(sync), Rejection::LimitsExceeded { limits });
    let sync = DATABASE.sync(&endpoint, &GONE, &mut budget, Some(&mut queue));
    assert_eq!(refusal(sync), Rejection::ForeignContext);
}

#[test]
fn a_truncation_checks_its_range_first() {
    let (endpoint, mut budget, mut queue) = connection(None, None);
    let beyond = i64::MAX as u64 + 1;
    let result = DATABASE.truncate(&endpoint, &GONE, &mut budget, Some(&mut queue), beyond);
    assert_eq!(refusal(result), Rejection::RangeExceeded);
    let result = DATABASE.truncate(&endpoint, &GONE, &mut budget, Some(&mut queue), beyond - 1);
    assert_eq!(refusal(result), Rejection::ForeignContext);
    let result = DATABASE.truncate(&endpoint, &HERE, &mut budget, Some(&mut queue), beyond - 1);
    assert!(result.is_ok());
}

#[test]
fn the_length_of_a_file_is_what_is_known_of_it() {
    let (database, wal) = files();
    let endpoint = Endpoint { runtime_fd: 3 };
    assert_eq!(DATABASE.size(&endpoint, &HERE, &database), Ok(4096));
    assert_eq!(WAL.size(&endpoint, &HERE, &wal), Ok(32));
    assert_eq!(WAL.size(&endpoint, &GONE, &wal), Err(Rejection::ForeignContext));
}

#[test]
fn only_the_exclusive_lock_is_granted() {
    let endpoint = Endpoint { runtime_fd: 3 };
    assert_eq!(DATABASE.lock_file(&endpoint, &HERE, true), Ok(()));
    assert_eq!(DATABASE.lock_file(&endpoint, &HERE, false), Err(Rejection::SharedLock));
    assert_eq!(DATABASE.lock_file(&endpoint, &GONE, false), Err(Rejection::ForeignContext));
    assert_eq!(DATABASE.unlock_file(), Err(Rejection::EarlyUnlock));
}

#[test]
fn sparse_files_are_refused() {
    assert_eq!(DATABASE.has_hole(), Err(Rejection::SparseFile));
    assert_eq!(DATABASE.punch_hole(), Err(Rejection::SparseFile));
}

#[test]
fn only_the_two_files_can_be_opened() {
    let (database, wal) = files();
    let io = adapter();
    let open = |caller: &Caller, path: &str, flags: turso::core::OpenFlags| {
        io.open_file(caller, &database, &wal, path, flags)
    };
    assert_eq!(open(&HERE, "d/x.db", turso::core::OpenFlags::Create), Ok(0));
    assert_eq!(open(&HERE, "d/x.db-wal", turso::core::OpenFlags::None), Ok(1));
    assert_eq!(
        open(&HERE, "d/y.db", turso::core::OpenFlags::Create),
        Err(Rejection::UnknownFile { path: "d/y.db".to_owned() }),
    );
    assert_eq!(open(&GONE, "d/x.db", turso::core::OpenFlags::Create), Err(Rejection::ForeignContext));
}

#[test]
fn read_only_files_are_refused() {
    let (database, wal) = files();
    let io = adapter();
    for flags in [turso::core::OpenFlags::ReadOnly, turso::core::OpenFlags::ReadOnly | turso::core::OpenFlags::NoLock] {
        let result = io.open_file(&GONE, &database, &wal, "d/x.db", flags);
        assert_eq!(result, Err(Rejection::ReadOnlyOpen));
    }
    let result = io.open_file(&HERE, &database, &wal, "d/x.db", turso::core::OpenFlags::NoLock);
    assert_eq!(result, Ok(0));
    let result = io.open_preopened(&HERE, &database, &wal, "d/x.db", true);
    assert_eq!(result, Err(Rejection::ReadOnlyOpen));
}

#[test]
fn a_path_leads_to_the_file_opened_in_advance() {
    let (database, wal) = files();
    let io = adapter();
    assert_eq!(
        io.file_id(&HERE, &database, &wal, "d/x.db"),
        Ok(FileId { dev: 1, ino: 10 }),
    );
    assert_eq!(
        io.file_id(&HERE, &database, &wal, "d/x.db-wal"),
        Ok(FileId { dev: 1, ino: 11 }),
    );
    assert_eq!(
        io.file_id(&HERE, &database, &wal, ""),
        Err(Rejection::UnknownFile { path: String::new() }),
    );
    assert_eq!(
        io.file_id(&GONE, &database, &wal, "d/x.db"),
        Err(Rejection::ForeignContext),
    );
}

#[test]
fn what_turso_cannot_await_is_refused() {
    let io = adapter();
    assert_eq!(io.open_shared_wal_file(&HERE), Err(Rejection::SharedWal));
    assert_eq!(io.open_shared_wal_file(&GONE), Err(Rejection::ForeignContext));
    assert!(!io.supports_shared_wal_coordination());
    assert_eq!(io.remove_file(&HERE), Err(Rejection::RemoveFile));
    assert_eq!(io.remove_file(&GONE), Err(Rejection::ForeignContext));
    assert_eq!(io.step(&HERE), Ok(()));
    assert_eq!(io.step(&GONE), Err(Rejection::ForeignContext));
}

#[test]
fn a_cancellation_aborts_what_has_no_result() {
    let io = adapter();
    let done = Status { finished: true, failed: false };
    let failed = Status { finished: true, failed: true };
    let pending = Status { finished: false, failed: false };
    let failing = Status { finished: false, failed: true };
    let statuses = vec![pending, done, failing, failed, pending];
    assert_eq!(io.cancel(&HERE, &statuses), Ok(vec![0, 2, 4]));
    assert_eq!(io.cancel(&GONE, &statuses), Err(Rejection::ForeignContext));
    assert_eq!(io.cancel(&HERE, &Vec::new()), Ok(Vec::new()));
}

#[test]
fn draining_succeeds_only_where_all_is_settled() {
    let io = adapter();
    let done = Status { finished: true, failed: false };
    let pending = Status { finished: false, failed: false };
    let failing = Status { finished: false, failed: true };
    assert_eq!(io.drain_completions(&HERE, &vec![done, failing]), Ok(()));
    assert_eq!(
        io.drain_completions(&HERE, &vec![done, pending]),
        Err(Rejection::SynchronousDrain),
    );
    assert_eq!(
        io.drain_completions(&GONE, &vec![done]),
        Err(Rejection::ForeignContext),
    );
}

#[test]
fn waiting_reports_but_never_blocks() {
    let io = adapter();
    let none: Option<u8> = None;
    assert_eq!(io.wait_for_completion(&HERE, none, true), Ok(()));
    assert_eq!(
        io.wait_for_completion(&HERE, none, false),
        Err(WaitError::Rejected(Rejection::SynchronousWait)),
    );
    assert_eq!(
        io.wait_for_completion(&HERE, Some(4u8), true),
        Err(WaitError::Completion(4)),
    );
    assert_eq!(
        io.wait_for_completion(&GONE, Some(4u8), true),
        Err(WaitError::Rejected(Rejection::ForeignContext)),
    );
}
