use turso_compio::error::{OpenError, Rejection};
use turso_compio::execution::Syscall;
use turso_compio::native::NativeOperation;
use turso_compio::text::append_decimal;
use turso_compio::Options;

fn rejection(rejection: Rejection) -> String {
    rejection.message()
}

#[test]
fn default_options_impose_no_limits() {
    let options = Options::default();
    assert_eq!(options.max_outstanding_operations, None);
    assert_eq!(options.max_retained_bytes, None);
    assert_eq!(options.validate(), Ok(()));
}

#[test]
fn explicit_limits_must_be_nonzero() {
    let operations = Options { max_outstanding_operations: Some(0), max_retained_bytes: None };
    let bytes = Options { max_outstanding_operations: Some(1), max_retained_bytes: Some(0) };
    let both = Options { max_outstanding_operations: Some(1), max_retained_bytes: Some(1) };
    assert_eq!(operations.validate(), Err(OpenError::ZeroLimit));
    assert_eq!(bytes.validate(), Err(OpenError::ZeroLimit));
    assert_eq!(both.validate(), Ok(()));
}

#[test]
fn numbers_are_written_in_decimal() {
    let mut text = String::from("n=");
    append_decimal(&mut text, 0);
    text.push(' ');
    append_decimal(&mut text, 9_076_543_210);
    text.push(' ');
    append_decimal(&mut text, usize::MAX);
    assert_eq!(text, format!("n=0 9076543210 {}", usize::MAX));
}

#[test]
fn limits_are_reported_as_configured() {
    let limits = Options { max_outstanding_operations: Some(3), max_retained_bytes: None };
    assert_eq!(
        rejection(Rejection::LimitsExceeded { limits }),
        "Turso I/O submission exceeds configured limits (Some(3) outstanding operations / None retained bytes) or accounting capacity",
    );
    let limits = Options { max_outstanding_operations: None, max_retained_bytes: Some(4096) };
    assert_eq!(
        rejection(Rejection::LimitsExceeded { limits }),
        format!(
            "Turso I/O submission exceeds configured limits ({:?} outstanding operations / {:?} retained bytes) or accounting capacity",
            limits.max_outstanding_operations, limits.max_retained_bytes,
        ),
    );
}

#[test]
fn refusals_have_their_texts() {
    assert_eq!(
        rejection(Rejection::ForeignContext),
        "Turso I/O must run on its original live CompIO runtime and thread",
    );
    assert_eq!(rejection(Rejection::ReentrantQueue), "reentrant Turso I/O queue access");
    assert_eq!(rejection(Rejection::TooManyBuffers), "Turso write exceeds 1024 buffers");
    assert_eq!(rejection(Rejection::LengthOverflow), "Turso write length overflow");
    assert_eq!(rejection(Rejection::AllocationOverflow), "Turso write allocation overflow");
    assert_eq!(
        rejection(Rejection::RangeExceeded),
        "Turso I/O range exceeds file/completion limits",
    );
    assert_eq!(
        rejection(Rejection::SharedLock),
        "this adapter holds an exclusive database lock for the file lifetime",
    );
    assert_eq!(
        rejection(Rejection::EarlyUnlock),
        "the database lock is released only when its file is closed",
    );
    assert_eq!(
        rejection(Rejection::ImmutableReadBuffer),
        "cannot read into an immutable Turso buffer",
    );
    assert_eq!(
        rejection(Rejection::SparseFile),
        "Turso sync-engine sparse files are not supported",
    );
    assert_eq!(
        rejection(Rejection::UnknownFile { path: "other.db".to_owned() }),
        "Turso 0.7.2 requires synchronous open_file; only the asynchronously preopened database and WAL are available: other.db",
    );
    assert_eq!(
        rejection(Rejection::ReadOnlyOpen),
        "this adapter preopens read-write files; read-only attachments require an asynchronous Turso open contract",
    );
    assert_eq!(
        rejection(Rejection::SharedWal),
        "Turso 0.7.2 shared WAL coordination requires synchronous open, resize, memory mapping, and lock backoff; opening the ordinary WAL does not implement this contract",
    );
    assert_eq!(
        rejection(Rejection::RemoveFile),
        "Turso 0.7.2 IO::remove_file has no completion or pending result; asynchronous unlink requires an upstream API change",
    );
    assert_eq!(
        rejection(Rejection::SynchronousDrain),
        "synchronous Turso completion draining is not supported; await the async API",
    );
    assert_eq!(
        rejection(Rejection::SynchronousWait),
        "synchronous Turso I/O waiting is not supported; await the async API",
    );
}

#[test]
fn open_errors_have_their_texts() {
    assert_eq!(OpenError::ZeroLimit.message(), "Turso I/O limits must be nonzero");
    assert_eq!(
        OpenError::UnsupportedPlatform.message(),
        "turso-compio currently supports Linux and macOS",
    );
    assert_eq!(
        OpenError::NoRuntime.message(),
        "Turso must be opened inside the CompIO runtime",
    );
    assert_eq!(OpenError::NotUtf8.message(), "Turso database path must be UTF-8");
    assert_eq!(OpenError::NoFileName.message(), "Turso requires a database file path");
    assert_eq!(
        OpenError::NotRegular { path: "dir/fifo".to_owned() }.message(),
        "Turso path is not a regular file: dir/fifo",
    );
    assert_eq!(
        OpenError::SameFile.message(),
        "Turso database and WAL must be distinct files",
    );
    assert_eq!(
        OpenError::NativeRequiresLinux.message(),
        "native filesystem mode requires Linux io_uring; other backends use filesystem worker threads",
    );
    assert_eq!(
        OpenError::FallbackDriver.message(),
        "Turso requires CompIO's io_uring driver, not its blocking-pool filesystem fallback",
    );
    assert_eq!(
        OpenError::MissingOperation { operation: NativeOperation::Ftruncate }.message(),
        "Turso requires native io_uring FTRUNCATE; FTRUNCATE requires Linux 6.9+ (no blocking fallback permitted)",
    );
}

#[test]
fn system_calls_and_operations_have_names() {
    assert_eq!(Syscall::Pread.label(), "Turso pread");
    assert_eq!(Syscall::Pwrite.label(), "Turso pwrite");
    assert_eq!(Syscall::Fsync.label(), "Turso fsync");
    assert_eq!(Syscall::Ftruncate.label(), "Turso ftruncate");
    assert_eq!(NativeOperation::OpenAt.label(), "OPENAT");
    assert_eq!(NativeOperation::Statx.label(), "STATX");
    assert_eq!(NativeOperation::Read.label(), "READ");
    assert_eq!(NativeOperation::Write.label(), "WRITE");
    assert_eq!(NativeOperation::Fsync.label(), "FSYNC");
    assert_eq!(NativeOperation::Close.label(), "CLOSE");
}
