use std::io::ErrorKind;

use turso_compio::bridge::Operation;
use turso_compio::budget::ReadBuffer;
use turso_compio::driver::Status;
use turso_compio::execution::{Execution, Failure, Outcome, Step, Syscall};
use turso_compio::filesystem::{FileId, FileState};

fn state(size: u64) -> FileState {
    FileState { path: "data.db".to_owned(), id: FileId { dev: 1, ino: 2 }, size }
}

fn write(offset: u64, buffers: &[&[u8]]) -> Operation<Vec<u8>> {
    Operation::Write {
        offset,
        buffers: buffers.iter().map(|buffer| buffer.to_vec()).collect(),
        lengths: buffers.iter().map(|buffer| buffer.len()).collect(),
    }
}

/// Executes a write on a file in memory, with calls that move at most `most`
/// bytes and an interruption before each of them. Fails after `calls` calls.
fn run_write(
    content: &mut Vec<u8>,
    state: &mut FileState,
    operation: Operation<Vec<u8>>,
    most: usize,
    calls: usize,
) -> Result<i32, Failure<ErrorKind>> {
    let started = Execution::begin(operation);
    let (mut execution, buffers, mut step) = (started.execution, started.buffers, started.first);
    let mut made = 0;
    loop {
        match step {
            Step::Finish(result) => return result,
            Step::Write { buffer, from, offset } => {
                let again = Step::Write { buffer, from, offset };
                let interrupted = Outcome::failed(ErrorKind::Interrupted);
                assert_eq!(execution.resume(state, interrupted), again);
                if made == calls {
                    step = execution.resume(state, Outcome::failed(ErrorKind::StorageFull));
                    continue;
                }
                made += 1;
                let bytes = &buffers[buffer][from..];
                let bytes = &bytes[..bytes.len().min(most)];
                let start = offset as usize;
                if content.len() < start + bytes.len() {
                    content.resize(start + bytes.len(), 0);
                }
                content[start..start + bytes.len()].copy_from_slice(bytes);
                step = execution.resume(state, Outcome::Moved(bytes.len()));
            },
            _ => panic!("not a write"),
        }
    }
}

/// Executes a read on a file in memory, with calls that move at most `most`
/// bytes and an interruption before each of them, and delivers it.
fn run_read(
    content: &[u8],
    offset: u64,
    length: usize,
    most: usize,
) -> (Result<i32, Failure<ErrorKind>>, Vec<u8>) {
    let started = Execution::begin::<u8, ErrorKind>(Operation::Read { offset, length });
    let (mut execution, mut step) = (started.execution, started.first);
    let mut file = state(content.len() as u64);
    let mut buffer = ReadBuffer { data: vec![0xaa; length], capacity: length };
    let result = loop {
        match step {
            Step::Finish(result) => break result,
            Step::Read { from, offset } => {
                let again = Step::Read { from, offset };
                let interrupted = Outcome::failed(ErrorKind::Interrupted);
                assert_eq!(execution.resume(&mut file, interrupted), again);
                let start = (offset as usize).min(content.len());
                let count = (content.len() - start).min(length - from).min(most);
                buffer.data[from..from + count].copy_from_slice(&content[start..start + count]);
                step = execution.resume(&mut file, Outcome::Moved(count));
            },
            _ => panic!("not a read"),
        }
    };
    assert_eq!(file.size, content.len() as u64);
    assert!(buffer.deliver(&result, &Status { finished: false, failed: false }));
    (result, buffer.data)
}

#[test]
fn only_interruptions_are_retried() {
    assert_eq!(
        Outcome::failed(ErrorKind::Interrupted),
        Outcome::Failed { kind: ErrorKind::Interrupted, interrupted: true },
    );
    assert_eq!(
        Outcome::failed(ErrorKind::PermissionDenied),
        Outcome::Failed { kind: ErrorKind::PermissionDenied, interrupted: false },
    );
}

#[test]
fn a_read_goes_on_after_partial_transfers() {
    let content: Vec<u8> = (0..100).collect();
    for most in [1, 3, 64] {
        let (result, bytes) = run_read(&content, 10, 20, most);
        assert_eq!(result, Ok(20));
        assert_eq!(bytes, content[10..30]);
    }
}

#[test]
fn a_read_ends_at_the_end_of_the_file() {
    let content: Vec<u8> = (1..11).collect();
    let (result, bytes) = run_read(&content, 6, 8, 3);
    assert_eq!(result, Ok(4));
    assert_eq!(bytes, vec![7, 8, 9, 10, 0, 0, 0, 0]);
    let (result, bytes) = run_read(&content, 50, 3, 3);
    assert_eq!(result, Ok(0));
    assert_eq!(bytes, vec![0, 0, 0]);
}

#[test]
fn an_empty_read_makes_no_call() {
    let started = Execution::begin::<u8, u8>(Operation::Read { offset: 9, length: 0 });
    assert_eq!(started.first, Step::Finish(Ok(0)));
}

#[test]
fn a_read_reports_its_failure() {
    let mut file = state(5);
    let started = Execution::begin::<u8, ErrorKind>(Operation::Read { offset: 0, length: 4 });
    let mut execution = started.execution;
    assert_eq!(started.first, Step::Read { from: 0, offset: 0 });
    assert_eq!(
        execution.resume::<ErrorKind>(&mut file, Outcome::Moved(1)),
        Step::Read { from: 1, offset: 1 },
    );
    assert_eq!(
        execution.resume(&mut file, Outcome::failed(ErrorKind::NotFound)),
        Step::Finish(Err(Failure::Io { kind: ErrorKind::NotFound, syscall: Syscall::Pread })),
    );
}

#[test]
fn a_write_writes_its_buffers_back_to_back() {
    for most in [1, 2, 5, 64] {
        let mut content = vec![1; 12];
        let mut file = state(12);
        let operation = write(4, &[b"ab", b"", b"cdefg", b"", b"hijk", b""]);
        let result = run_write(&mut content, &mut file, operation, most, 100);
        assert_eq!(result, Ok(11));
        assert_eq!(content, b"\x01\x01\x01\x01abcdefghijk");
        assert_eq!(file.size, 15);
    }
}

#[test]
fn a_write_inside_the_file_keeps_its_length() {
    let mut content = vec![0; 10];
    let mut file = state(10);
    let result = run_write(&mut content, &mut file, write(2, &[b"xyz"]), 2, 100);
    assert_eq!(result, Ok(3));
    assert_eq!(content, b"\0\0xyz\0\0\0\0\0");
    assert_eq!(file.size, 10);
}

#[test]
fn a_failed_write_keeps_the_length_that_it_reached() {
    let mut content = Vec::new();
    let mut file = state(0);
    let result = run_write(&mut content, &mut file, write(0, &[b"abc", b"def"]), 2, 3);
    assert_eq!(
        result,
        Err(Failure::Io { kind: ErrorKind::StorageFull, syscall: Syscall::Pwrite }),
    );
    assert_eq!(content, b"abcde");
    assert_eq!(file.size, 5);
}

#[test]
fn a_write_without_progress_fails() {
    let mut file = state(0);
    let started = Execution::begin::<Vec<u8>, ErrorKind>(write(3, &[b"", b"abc"]));
    let mut execution = started.execution;
    assert_eq!(started.first, Step::Write { buffer: 1, from: 0, offset: 3 });
    assert_eq!(
        execution.resume::<ErrorKind>(&mut file, Outcome::Moved(0)),
        Step::Finish(Err(Failure::ShortWrite)),
    );
    assert_eq!(file.size, 0);
}

#[test]
fn a_write_of_nothing_makes_no_call() {
    let started = Execution::begin::<Vec<u8>, u8>(write(3, &[b"", b""]));
    assert_eq!(started.first, Step::Finish(Ok(0)));
    let started = Execution::begin::<Vec<u8>, u8>(write(3, &[]));
    assert_eq!(started.first, Step::Finish(Ok(0)));
}

#[test]
fn a_read_gives_back_a_write() {
    let mut content = vec![7; 3];
    let mut file = state(3);
    let operation = write(5, &[b"page one", b"page two"]);
    assert_eq!(run_write(&mut content, &mut file, operation, 3, 100), Ok(16));
    assert_eq!(file.size, content.len() as u64);
    let (result, bytes) = run_read(&content, 5, 16, 7);
    assert_eq!(result, Ok(16));
    assert_eq!(bytes, b"page onepage two");
    let (result, bytes) = run_read(&content, 0, 5, 7);
    assert_eq!(result, Ok(5));
    assert_eq!(bytes, vec![7, 7, 7, 0, 0]);
}

#[test]
fn the_length_follows_a_sequence_of_operations() {
    let mut content = Vec::new();
    let mut file = state(0);
    let first = write(2, &[b"abc", b"de"]);
    assert_eq!(run_write(&mut content, &mut file, first, 2, 100), Ok(5));
    assert_eq!(file.size, content.len() as u64);
    let mut execution = Execution::Truncate(3);
    content.truncate(3);
    execution.resume::<ErrorKind>(&mut file, Outcome::Completed);
    assert_eq!(file.size, content.len() as u64);
    assert!(run_write(&mut content, &mut file, write(1, &[b"wxyz"]), 3, 1).is_err());
    assert_eq!(file.size, content.len() as u64);
    assert_eq!(content, b"\0wxy");
}

#[test]
fn a_sync_succeeds_or_fails_at_once() {
    let mut file = state(5);
    let started = Execution::begin::<u8, ErrorKind>(Operation::Sync);
    let mut execution = started.execution;
    assert_eq!(started.first, Step::SyncAll);
    assert_eq!(
        execution.resume::<ErrorKind>(&mut file, Outcome::Completed),
        Step::Finish(Ok(0)),
    );
    let mut execution = Execution::Sync;
    assert_eq!(
        execution.resume(&mut file, Outcome::failed(ErrorKind::Interrupted)),
        Step::Finish(Err(Failure::Io { kind: ErrorKind::Interrupted, syscall: Syscall::Fsync })),
    );
    assert_eq!(file.size, 5);
}

#[test]
fn a_truncation_sets_the_length_when_it_succeeds() {
    let mut file = state(50);
    let started = Execution::begin::<u8, ErrorKind>(Operation::Truncate(20));
    let mut execution = started.execution;
    assert_eq!(started.first, Step::SetLength(20));
    assert_eq!(
        execution.resume::<ErrorKind>(&mut file, Outcome::Completed),
        Step::Finish(Ok(0)),
    );
    assert_eq!(file.size, 20);
    let mut execution = Execution::Truncate(90);
    assert_eq!(
        execution.resume(&mut file, Outcome::failed(ErrorKind::StorageFull)),
        Step::Finish(Err(Failure::Io {
            kind: ErrorKind::StorageFull,
            syscall: Syscall::Ftruncate,
        })),
    );
    assert_eq!(file.size, 20);
}
