use compio::driver::DriverType;
use turso_compio::bridge::{Endpoint, Operation, Queue};
use turso_compio::budget::{Budget, ReadBuffer};
use turso_compio::driver::{Driver, DriverAction, DriverEvent, DriverState, Status};
use turso_compio::error::OpenError;
use turso_compio::execution::{Failure, Syscall};
use turso_compio::filesystem::FileId;
use turso_compio::lifetime::Lifetime;
use turso_compio::native::{
    check_native_driver, check_native_filesystem_support, check_native_operations, NativeOperation,
    Platform, RuntimeDriver,
};
use turso_compio::opening::{plan_open, Metadata, OpenStep, Opening};
use turso_compio::Options;

const PENDING: Status = Status { finished: false, failed: false };
const FINISHED: Status = Status { finished: true, failed: false };
const FAILED: Status = Status { finished: false, failed: true };
const NOTHING: Metadata =
    Metadata { is_file: false, id: FileId { dev: 0, ino: 0 }, size: 0 };

const IDLE: DriverEvent<u8> = DriverEvent::Polled { found: false, closed: false };
const FOUND: DriverEvent<u8> = DriverEvent::Polled { found: true, closed: true };
const DRAINED: DriverEvent<u8> = DriverEvent::Polled { found: false, closed: true };

fn regular(ino: u64, size: u64) -> Metadata {
    Metadata { is_file: true, id: FileId { dev: 5, ino }, size }
}

fn request(path: &str) -> Opening {
    match Opening::request(Platform::Linux, Options::default(), Some(4), Some(path)) {
        Ok(opening) => opening,
        Err(error) => panic!("{}", error.message()),
    }
}

fn refused(result: Result<Opening, OpenError>) -> OpenError {
    match result {
        Ok(_) => panic!("accepted"),
        Err(error) => error,
    }
}

/// Lets every step up to the given one succeed.
fn advance_to(opening: &mut Opening, step: OpenStep) {
    while opening.step != step {
        let metadata = match opening.step {
            OpenStep::StatDatabase => regular(1, 4096),
            OpenStep::StatWal => regular(2, 64),
            _ => NOTHING,
        };
        let next = opening.advance(metadata);
        assert_eq!(next, Ok(opening.step));
    }
}

#[test]
fn a_job_runs_and_its_completion_is_told_last() {
    let (mut driver, action) = Driver::start();
    assert_eq!(action, DriverAction::Poll);
    assert_eq!(driver.advance(FOUND), DriverAction::Inspect);
    assert_eq!(driver.advance(DriverEvent::Inspected(PENDING)), DriverAction::Execute);
    assert_eq!(driver.advance(DriverEvent::Executed(Ok(12))), DriverAction::Release);
    assert_eq!(driver.advance(DriverEvent::Inspected(PENDING)), DriverAction::Complete(12));
    assert_eq!(driver.advance(DriverEvent::Dropped), DriverAction::Poll);
}

#[test]
fn a_failure_is_told_as_it_is() {
    let (mut driver, _) = Driver::start();
    driver.advance(FOUND);
    driver.advance(DriverEvent::Inspected(PENDING));
    let failure = Failure::Io { kind: 9, syscall: Syscall::Fsync };
    assert_eq!(driver.advance(DriverEvent::Executed(Err(failure))), DriverAction::Release);
    assert_eq!(
        driver.advance(DriverEvent::Inspected(PENDING)),
        DriverAction::Fail(Failure::Io { kind: 9, syscall: Syscall::Fsync }),
    );
}

#[test]
fn a_settled_job_is_not_executed() {
    for status in [FINISHED, FAILED] {
        let (mut driver, _) = Driver::start();
        driver.advance(FOUND);
        assert_eq!(driver.advance(DriverEvent::Inspected(status)), DriverAction::DropJob);
        assert_eq!(driver.advance(DriverEvent::Dropped), DriverAction::Poll);
    }
}

#[test]
fn a_job_settled_while_it_ran_is_not_told() {
    for status in [FINISHED, FAILED] {
        let (mut driver, _) = Driver::start();
        driver.advance(FOUND);
        driver.advance(DriverEvent::Inspected(PENDING));
        driver.advance(DriverEvent::Executed(Ok(1)));
        assert_eq!(driver.advance(DriverEvent::Inspected(status)), DriverAction::DropJob);
    }
}

#[test]
fn an_empty_queue_is_awaited() {
    let (mut driver, _) = Driver::start();
    assert_eq!(driver.advance(IDLE), DriverAction::Sleep);
    assert_eq!(driver.advance(DriverEvent::Woken), DriverAction::Poll);
}

#[test]
fn the_wal_is_closed_before_the_database() {
    let (mut driver, _) = Driver::start();
    assert_eq!(driver.advance(FOUND), DriverAction::Inspect);
    driver.advance(DriverEvent::Inspected(FINISHED));
    driver.advance(DriverEvent::Dropped);
    assert_eq!(driver.advance(DRAINED), DriverAction::CloseWal);
    assert_eq!(driver.advance(DriverEvent::Closed), DriverAction::CloseDatabase);
    assert_eq!(driver.advance(DriverEvent::Closed), DriverAction::Stop);
    assert_eq!(driver.state, DriverState::Stopped);
}

#[test]
fn only_what_has_no_result_is_aborted() {
    assert!(PENDING.needs_abort());
    assert!(FAILED.needs_abort());
    assert!(!FINISHED.needs_abort());
    assert!(!PENDING.is_settled());
    assert!(FAILED.is_settled());
    assert!(FINISHED.is_settled());
}

#[test]
fn paths_are_planned_from_their_components() {
    let plan = |path: &str, name: Option<&str>, parent: Option<&str>| {
        plan_open(path, name.map(str::to_owned), parent.map(str::to_owned))
    };
    let planned = plan("a/b.db", Some("b.db"), Some("a")).ok().unwrap();
    assert_eq!(planned.database, "a/b.db");
    assert_eq!(planned.wal, "a/b.db-wal");
    assert_eq!(planned.parent, "a");
    assert_eq!(plan("b.db", Some("b.db"), Some("")).ok().unwrap().parent, ".");
    assert_eq!(plan("b.db", Some("b.db"), None).ok().unwrap().parent, ".");
    assert!(matches!(plan("", Some("x"), None), Err(OpenError::NoFileName)));
    assert!(matches!(plan("a/..", None, Some("a")), Err(OpenError::NoFileName)));
}

#[test]
fn a_request_takes_its_path_apart() {
    let opening = request("dir/sub/data.db");
    assert_eq!(opening.plan.database, "dir/sub/data.db");
    assert_eq!(opening.plan.wal, "dir/sub/data.db-wal");
    assert_eq!(opening.plan.parent, "dir/sub");
    assert_eq!(opening.step, OpenStep::OpenParent);
    assert_eq!(opening.runtime_fd, 4);
    assert_eq!(request("data.db").plan.parent, ".");
    assert_eq!(request("/data.db").plan.parent, "/");
}

#[test]
fn a_request_is_refused_for_the_first_reason() {
    let zero = Options { max_outstanding_operations: Some(0), max_retained_bytes: None };
    let any = Options::default();
    let request = |platform: Platform, options: Options, fd: Option<i32>, path: Option<&str>| {
        refused(Opening::request(platform, options, fd, path))
    };
    assert_eq!(request(Platform::Other, zero, None, None), OpenError::ZeroLimit);
    assert_eq!(request(Platform::Other, any, None, None), OpenError::UnsupportedPlatform);
    assert_eq!(request(Platform::MacOs, any, None, None), OpenError::NoRuntime);
    assert_eq!(request(Platform::Linux, any, Some(1), None), OpenError::NotUtf8);
    for path in ["", "/", "..", "dir/.."] {
        assert_eq!(request(Platform::Linux, any, Some(1), Some(path)), OpenError::NoFileName);
    }
}

#[test]
fn a_strict_request_is_answered_by_the_native_check_first() {
    let zero = Options { max_outstanding_operations: Some(0), max_retained_bytes: None };
    let missing = OpenError::MissingOperation { operation: NativeOperation::Ftruncate };
    let result = Opening::request_strict(Err(missing), Platform::Linux, zero, None, None);
    assert_eq!(
        refused(result),
        OpenError::MissingOperation { operation: NativeOperation::Ftruncate },
    );
    let result = Opening::request_strict(Ok(()), Platform::Linux, zero, None, None);
    assert_eq!(refused(result), OpenError::ZeroLimit);
    let result = Opening::request_strict(
        Ok(()),
        Platform::Linux,
        Options::default(),
        Some(4),
        Some("d/x.db"),
    );
    let opening = result.ok().unwrap();
    assert_eq!(opening.step, OpenStep::OpenParent);
    assert_eq!(opening.plan.database, "d/x.db");
    assert_eq!(opening.plan.parent, "d");
}

#[test]
fn files_are_locked_and_durable_before_they_are_used() {
    let mut opening = request("x.db");
    let mut steps = vec![opening.step];
    while opening.step != OpenStep::Attach {
        let metadata = match opening.step {
            OpenStep::StatDatabase => regular(1, 4096),
            OpenStep::StatWal => regular(2, 64),
            _ => NOTHING,
        };
        steps.push(opening.advance(metadata).unwrap());
    }
    assert_eq!(
        steps,
        vec![
            OpenStep::OpenParent,
            OpenStep::OpenDatabase,
            OpenStep::LockDatabase,
            OpenStep::StatDatabase,
            OpenStep::OpenWal,
            OpenStep::LockWal,
            OpenStep::StatWal,
            OpenStep::SyncDatabase,
            OpenStep::SyncWal,
            OpenStep::SyncParent,
            OpenStep::CloseParent,
            OpenStep::Attach,
        ],
    );
    let (database, wal) = opening.finish();
    assert_eq!((database.path.as_str(), database.size), ("x.db", 4096));
    assert_eq!(database.id, FileId { dev: 5, ino: 1 });
    assert_eq!((wal.path.as_str(), wal.size), ("x.db-wal", 64));
    assert_eq!(wal.id, FileId { dev: 5, ino: 2 });
}

#[test]
fn both_files_have_to_be_regular() {
    let mut opening = request("x.db");
    advance_to(&mut opening, OpenStep::StatDatabase);
    assert_eq!(
        opening.advance(NOTHING),
        Err(OpenError::NotRegular { path: "x.db".to_owned() }),
    );
    assert_eq!(opening.step, OpenStep::StatDatabase);
    advance_to(&mut opening, OpenStep::StatWal);
    assert_eq!(
        opening.advance(NOTHING),
        Err(OpenError::NotRegular { path: "x.db-wal".to_owned() }),
    );
}

#[test]
fn both_files_have_to_be_distinct() {
    let mut opening = request("x.db");
    advance_to(&mut opening, OpenStep::StatWal);
    assert_eq!(opening.advance(regular(1, 4096)), Err(OpenError::SameFile));
    assert_eq!(opening.step, OpenStep::StatWal);
    assert_eq!(opening.advance(regular(3, 4096)), Ok(OpenStep::SyncDatabase));
}

#[test]
fn failures_are_reported_by_what_was_being_done() {
    let mut opening = request("x.db");
    let mut contexts = vec![opening.context()];
    for step in [
        OpenStep::OpenDatabase,
        OpenStep::LockDatabase,
        OpenStep::StatDatabase,
        OpenStep::OpenWal,
        OpenStep::LockWal,
        OpenStep::StatWal,
        OpenStep::SyncDatabase,
        OpenStep::SyncWal,
        OpenStep::SyncParent,
        OpenStep::CloseParent,
        OpenStep::Attach,
    ] {
        advance_to(&mut opening, step);
        contexts.push(opening.context());
    }
    let contexts: Vec<Option<&str>> = contexts.iter().map(|context| context.as_deref()).collect();
    assert_eq!(
        contexts,
        vec![
            Some("opening existing Turso parent directory"),
            Some("opening Turso file x.db"),
            Some("acquiring exclusive Turso file lock"),
            None,
            Some("opening Turso file x.db-wal"),
            Some("acquiring exclusive Turso file lock"),
            None,
            Some("syncing Turso database creation"),
            Some("syncing Turso WAL creation"),
            Some("syncing Turso directory entries"),
            None,
            Some("connecting to the Turso database"),
        ],
    );
}

#[test]
fn only_io_uring_runs_natively() {
    assert_eq!(RuntimeDriver::of(&DriverType::IoUring), RuntimeDriver::IoUring);
    assert_eq!(RuntimeDriver::of(&DriverType::Poll), RuntimeDriver::Fallback);
    assert_eq!(RuntimeDriver::of(&DriverType::IOCP), RuntimeDriver::Fallback);
    assert_eq!(
        check_native_driver(Platform::MacOs, Some(RuntimeDriver::IoUring)),
        Err(OpenError::NativeRequiresLinux),
    );
    assert_eq!(check_native_driver(Platform::Linux, None), Err(OpenError::NoRuntime));
    assert_eq!(
        check_native_driver(Platform::Linux, Some(RuntimeDriver::Fallback)),
        Err(OpenError::FallbackDriver),
    );
    assert_eq!(
        check_native_driver(Platform::Linux, Some(RuntimeDriver::IoUring)),
        Ok(()),
    );
}

#[test]
fn the_first_missing_operation_is_named() {
    assert_eq!(check_native_operations(&vec![true; 7]), Ok(()));
    let order = [
        NativeOperation::OpenAt,
        NativeOperation::Statx,
        NativeOperation::Read,
        NativeOperation::Write,
        NativeOperation::Fsync,
        NativeOperation::Ftruncate,
        NativeOperation::Close,
    ];
    for (index, operation) in order.into_iter().enumerate() {
        let mut supported = vec![true; index];
        supported.resize(7, false);
        assert_eq!(
            check_native_operations(&supported),
            Err(OpenError::MissingOperation { operation }),
        );
    }
}

#[test]
fn an_unfilled_probe_supports_nothing() {
    let probe = io_uring::Probe::new();
    assert_eq!(
        check_native_filesystem_support(Platform::Linux, Some(RuntimeDriver::IoUring), &probe),
        Err(OpenError::MissingOperation { operation: NativeOperation::OpenAt }),
    );
    assert_eq!(
        check_native_filesystem_support(Platform::Linux, Some(RuntimeDriver::Fallback), &probe),
        Err(OpenError::FallbackDriver),
    );
    assert_eq!(
        check_native_filesystem_support(Platform::Other, None, &probe),
        Err(OpenError::NativeRequiresLinux),
    );
}

#[test]
fn a_filled_probe_is_taken_at_its_word() {
    let mut probe = io_uring::Probe::new();
    let ring = match io_uring::IoUring::new(1) {
        Ok(ring) => ring,
        // Without io_uring there is nothing that could fill a probe.
        Err(_) => return,
    };
    if ring.submitter().register_probe(&mut probe).is_err() {
        return;
    }
    let codes = [
        (NativeOperation::OpenAt, io_uring::opcode::OpenAt::CODE),
        (NativeOperation::Statx, io_uring::opcode::Statx::CODE),
        (NativeOperation::Read, io_uring::opcode::Read::CODE),
        (NativeOperation::Write, io_uring::opcode::Write::CODE),
        (NativeOperation::Fsync, io_uring::opcode::Fsync::CODE),
        (NativeOperation::Ftruncate, io_uring::opcode::Ftruncate::CODE),
        (NativeOperation::Close, io_uring::opcode::Close::CODE),
    ];
    let missing = codes.iter().find(|(_, code)| !probe.is_supported(*code));
    let expected = match missing {
        Some((operation, _)) => Err(OpenError::MissingOperation { operation: *operation }),
        None => Ok(()),
    };
    assert_eq!(
        check_native_filesystem_support(Platform::Linux, Some(RuntimeDriver::IoUring), &probe),
        expected,
    );
}

#[test]
fn operations_keep_their_numbers() {
    assert_eq!(io_uring::opcode::OpenAt::CODE, 18);
    assert_eq!(io_uring::opcode::Statx::CODE, 21);
    assert_eq!(io_uring::opcode::Read::CODE, 22);
    assert_eq!(io_uring::opcode::Write::CODE, 23);
    assert_eq!(io_uring::opcode::Fsync::CODE, 3);
    assert_eq!(io_uring::opcode::Ftruncate::CODE, 55);
    assert_eq!(io_uring::opcode::Close::CODE, 19);
}

#[test]
fn a_new_connection_is_alive_and_not_closed() {
    let parts: (Endpoint, Budget, Queue<u8, u8>, Lifetime) =
        Endpoint::new(4, Options::default());
    let (endpoint, budget, queue, lifetime) = parts;
    assert_eq!(lifetime, Lifetime { alive: true, closed: false });
    assert_eq!(lifetime, Lifetime::new());
    assert_eq!(endpoint.check(&lifetime.caller(true, Some(4))), Ok(()));
    assert!(endpoint.check(&lifetime.caller(false, Some(4))).is_err());
    assert!(endpoint.check(&lifetime.caller(true, Some(5))).is_err());
    assert!(endpoint.check(&lifetime.caller(true, None)).is_err());
    assert_eq!((budget.operations, budget.bytes), (0, 0));
    assert!(queue.jobs.is_empty());
}

#[test]
fn a_closed_connection_is_still_driven() {
    let mut lifetime = Lifetime::new();
    lifetime.close();
    assert_eq!(lifetime, Lifetime { alive: true, closed: true });
    let endpoint = Endpoint { runtime_fd: 4 };
    assert_eq!(endpoint.check(&lifetime.caller(true, Some(4))), Ok(()));
}

#[test]
fn nothing_is_accepted_once_the_driver_is_gone() {
    let (endpoint, mut budget, mut queue, mut lifetime) =
        Endpoint::new::<u32, u8>(4, Options::default());
    for name in [1u32, 2] {
        let reservation = budget.charge(50);
        assert!(endpoint.enqueue(Some(&mut queue), 0, Operation::Sync, name, reservation).is_ok());
    }
    queue.read_buffer = Some(ReadBuffer { data: vec![0; 8], capacity: 8 });
    budget.bytes += 8;
    assert_eq!(lifetime.end(Some(&mut queue), &mut budget), vec![1, 2]);
    assert_eq!(lifetime, Lifetime { alive: false, closed: false });
    assert_eq!((budget.operations, budget.bytes), (0, 0));
    assert!(queue.jobs.is_empty());
    assert!(queue.read_buffer.is_none());
    lifetime.close();
    assert!(lifetime.end(Some(&mut queue), &mut budget).is_empty());
    assert_eq!(lifetime, Lifetime { alive: false, closed: true });
    assert!(endpoint.check(&lifetime.caller(true, Some(4))).is_err());
}

#[test]
fn the_driver_ends_even_where_the_queue_is_locked() {
    let mut budget = Budget::new(Options::default());
    let reservation = budget.charge(3);
    let mut lifetime = Lifetime::new();
    assert!(lifetime.end::<u32, u8>(None, &mut budget).is_empty());
    assert!(!lifetime.alive);
    assert_eq!((budget.operations, budget.bytes), (1, 3));
    reservation.discard(&mut budget);
}
