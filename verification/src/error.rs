//! What the adapter refuses, and why a database is not opened.

use vstd::prelude::*;

use crate::native::NativeOperation;
use crate::options::Options;
use crate::text::{append_limit, limit_text};

verus! {

/// A request that is refused before anything is submitted for it.
#[derive(Debug, PartialEq, Eq)]
pub enum Rejection {
    /// The caller is on another thread or runtime, or the driver is gone.
    ForeignContext,
    /// The queue is already locked further up the stack.
    ReentrantQueue,
    /// An operation or its bytes do not fit within the limits.
    LimitsExceeded { limits: Options },
    /// A write has more constituent buffers than one operation may hold.
    TooManyBuffers,
    /// The lengths of a write's buffers do not add up to a `usize`.
    LengthOverflow,
    /// The allocations behind a write's buffers do not add up to a `usize`.
    AllocationOverflow,
    /// A range does not fit a file offset or a completion count.
    RangeExceeded,
    /// A lock other than the exclusive one was requested.
    SharedLock,
    /// The database lock was to be released before its file is closed.
    EarlyUnlock,
    /// A read was to be delivered into a buffer that cannot be written.
    ImmutableReadBuffer,
    /// Sparse-file operations.
    SparseFile,
    /// A file that was not opened in advance.
    UnknownFile { path: String },
    /// A file was to be opened read-only.
    ReadOnlyOpen,
    /// Shared WAL coordination.
    SharedWal,
    /// A file was to be removed.
    RemoveFile,
    /// Pending completions were to be drained synchronously.
    SynchronousDrain,
    /// A pending completion was to be awaited synchronously.
    SynchronousWait,
}

impl Rejection {
    /// The text of the refusal.
    pub open spec fn text(self) -> Seq<char> {
        match self {
            Rejection::ForeignContext =>
                "Turso I/O must run on its original live CompIO runtime and thread"@,
            Rejection::ReentrantQueue => "reentrant Turso I/O queue access"@,
            Rejection::LimitsExceeded { limits } =>
                "Turso I/O submission exceeds configured limits ("@
                    + limit_text(limits.max_outstanding_operations)
                    + " outstanding operations / "@ + limit_text(limits.max_retained_bytes)
                    + " retained bytes) or accounting capacity"@,
            Rejection::TooManyBuffers => "Turso write exceeds 1024 buffers"@,
            Rejection::LengthOverflow => "Turso write length overflow"@,
            Rejection::AllocationOverflow => "Turso write allocation overflow"@,
            Rejection::RangeExceeded => "Turso I/O range exceeds file/completion limits"@,
            Rejection::SharedLock =>
                "this adapter holds an exclusive database lock for the file lifetime"@,
            Rejection::EarlyUnlock =>
                "the database lock is released only when its file is closed"@,
            Rejection::ImmutableReadBuffer => "cannot read into an immutable Turso buffer"@,
            Rejection::SparseFile => "Turso sync-engine sparse files are not supported"@,
            Rejection::UnknownFile { path } =>
                "Turso 0.7.2 requires synchronous open_file; only the asynchronously preopened database and WAL are available: "@
                    + path@,
            Rejection::ReadOnlyOpen =>
                "this adapter preopens read-write files; read-only attachments require an asynchronous Turso open contract"@,
            Rejection::SharedWal =>
                "Turso 0.7.2 shared WAL coordination requires synchronous open, resize, memory mapping, and lock backoff; opening the ordinary WAL does not implement this contract"@,
            Rejection::RemoveFile =>
                "Turso 0.7.2 IO::remove_file has no completion or pending result; asynchronous unlink requires an upstream API change"@,
            Rejection::SynchronousDrain =>
                "synchronous Turso completion draining is not supported; await the async API"@,
            Rejection::SynchronousWait =>
                "synchronous Turso I/O waiting is not supported; await the async API"@,
        }
    }

    /// The text of the refusal.
    pub fn message(&self) -> (message: String)
        ensures
            message@ == self.text(),
    {
        match self {
            Rejection::ForeignContext =>
                "Turso I/O must run on its original live CompIO runtime and thread".to_owned(),
            Rejection::ReentrantQueue => "reentrant Turso I/O queue access".to_owned(),
            Rejection::LimitsExceeded { limits } => {
                let mut message = "Turso I/O submission exceeds configured limits (".to_owned();
                append_limit(&mut message, limits.max_outstanding_operations);
                message.append(" outstanding operations / ");
                append_limit(&mut message, limits.max_retained_bytes);
                message.append(" retained bytes) or accounting capacity");
                message
            },
            Rejection::TooManyBuffers => "Turso write exceeds 1024 buffers".to_owned(),
            Rejection::LengthOverflow => "Turso write length overflow".to_owned(),
            Rejection::AllocationOverflow => "Turso write allocation overflow".to_owned(),
            Rejection::RangeExceeded =>
                "Turso I/O range exceeds file/completion limits".to_owned(),
            Rejection::SharedLock =>
                "this adapter holds an exclusive database lock for the file lifetime".to_owned(),
            Rejection::EarlyUnlock =>
                "the database lock is released only when its file is closed".to_owned(),
            Rejection::ImmutableReadBuffer =>
                "cannot read into an immutable Turso buffer".to_owned(),
            Rejection::SparseFile =>
                "Turso sync-engine sparse files are not supported".to_owned(),
            Rejection::UnknownFile { path } => {
                let mut message =
                    "Turso 0.7.2 requires synchronous open_file; only the asynchronously preopened database and WAL are available: ".to_owned();
                message.append(path.as_str());
                message
            },
            Rejection::ReadOnlyOpen =>
                "this adapter preopens read-write files; read-only attachments require an asynchronous Turso open contract".to_owned(),
            Rejection::SharedWal =>
                "Turso 0.7.2 shared WAL coordination requires synchronous open, resize, memory mapping, and lock backoff; opening the ordinary WAL does not implement this contract".to_owned(),
            Rejection::RemoveFile =>
                "Turso 0.7.2 IO::remove_file has no completion or pending result; asynchronous unlink requires an upstream API change".to_owned(),
            Rejection::SynchronousDrain =>
                "synchronous Turso completion draining is not supported; await the async API".to_owned(),
            Rejection::SynchronousWait =>
                "synchronous Turso I/O waiting is not supported; await the async API".to_owned(),
        }
    }
}

/// Why a database is not opened.
#[derive(Debug, PartialEq, Eq)]
pub enum OpenError {
    /// An explicit limit is zero.
    ZeroLimit,
    /// The system is neither Linux nor macOS.
    UnsupportedPlatform,
    /// There is no runtime around the call.
    NoRuntime,
    /// The path is not UTF-8.
    NotUtf8,
    /// The path does not lead to a file.
    NoFileName,
    /// A path leads to something other than a regular file.
    NotRegular { path: String },
    /// The database and the WAL are the same file.
    SameFile,
    /// Native operations were asked for on a system without io_uring.
    NativeRequiresLinux,
    /// The runtime leaves filesystem operations to worker threads.
    FallbackDriver,
    /// The kernel lacks a filesystem operation.
    MissingOperation { operation: NativeOperation },
}

impl OpenError {
    /// The text of the error.
    pub open spec fn text(self) -> Seq<char> {
        match self {
            OpenError::ZeroLimit => "Turso I/O limits must be nonzero"@,
            OpenError::UnsupportedPlatform => "turso-compio currently supports Linux and macOS"@,
            OpenError::NoRuntime => "Turso must be opened inside the CompIO runtime"@,
            OpenError::NotUtf8 => "Turso database path must be UTF-8"@,
            OpenError::NoFileName => "Turso requires a database file path"@,
            OpenError::NotRegular { path } => "Turso path is not a regular file: "@ + path@,
            OpenError::SameFile => "Turso database and WAL must be distinct files"@,
            OpenError::NativeRequiresLinux =>
                "native filesystem mode requires Linux io_uring; other backends use filesystem worker threads"@,
            OpenError::FallbackDriver =>
                "Turso requires CompIO's io_uring driver, not its blocking-pool filesystem fallback"@,
            OpenError::MissingOperation { operation } => "Turso requires native io_uring "@
                + operation.name()
                + "; FTRUNCATE requires Linux 6.9+ (no blocking fallback permitted)"@,
        }
    }

    /// The text of the error.
    pub fn message(&self) -> (message: String)
        ensures
            message@ == self.text(),
    {
        match self {
            OpenError::ZeroLimit => "Turso I/O limits must be nonzero".to_owned(),
            OpenError::UnsupportedPlatform =>
                "turso-compio currently supports Linux and macOS".to_owned(),
            OpenError::NoRuntime =>
                "Turso must be opened inside the CompIO runtime".to_owned(),
            OpenError::NotUtf8 => "Turso database path must be UTF-8".to_owned(),
            OpenError::NoFileName => "Turso requires a database file path".to_owned(),
            OpenError::NotRegular { path } => {
                let mut message = "Turso path is not a regular file: ".to_owned();
                message.append(path.as_str());
                message
            },
            OpenError::SameFile =>
                "Turso database and WAL must be distinct files".to_owned(),
            OpenError::NativeRequiresLinux =>
                "native filesystem mode requires Linux io_uring; other backends use filesystem worker threads".to_owned(),
            OpenError::FallbackDriver =>
                "Turso requires CompIO's io_uring driver, not its blocking-pool filesystem fallback".to_owned(),
            OpenError::MissingOperation { operation } => {
                let mut message = "Turso requires native io_uring ".to_owned();
                message.append(operation.label());
                message.append("; FTRUNCATE requires Linux 6.9+ (no blocking fallback permitted)");
                message
            },
        }
    }
}

/// A text is put together from fixed pieces around two limits.
pub open spec fn frames_limits(before: Seq<char>, between: Seq<char>, after: Seq<char>) -> bool {
    forall|limits: Options|
        #[trigger] (Rejection::LimitsExceeded { limits }).text() == before + limit_text(
            limits.max_outstanding_operations,
        ) + between + limit_text(limits.max_retained_bytes) + after
}

/// A refusal for the limits names both of them, the operations first, in the
/// same words whatever they are.
pub proof fn law_refusal_names_both_limits()
    ensures
        exists|before: Seq<char>, between: Seq<char>, after: Seq<char>|
            frames_limits(before, between, after),
{
    let before = "Turso I/O submission exceeds configured limits ("@;
    let between = " outstanding operations / "@;
    let after = " retained bytes) or accounting capacity"@;
    assert(frames_limits(before, between, after));
}

/// The refusal of an unknown file ends with the whole path, behind the same
/// words whatever the path is.
pub proof fn law_refusal_names_unknown_path(one: String, other: String)
    ensures
        ({
            let text = (Rejection::UnknownFile { path: one }).text();
            let other_text = (Rejection::UnknownFile { path: other }).text();
            &&& text.len() >= one@.len()
            &&& text.skip(text.len() - one@.len()) == one@
            &&& text.take(text.len() - one@.len()) == other_text.take(
                other_text.len() - other@.len(),
            )
        }),
{
    let text = (Rejection::UnknownFile { path: one }).text();
    let other_text = (Rejection::UnknownFile { path: other }).text();
    assert(text.skip(text.len() - one@.len()) =~= one@);
    assert(text.take(text.len() - one@.len()) =~= other_text.take(
        other_text.len() - other@.len(),
    ));
}

/// The error for a file that is not regular ends with the whole path, behind the
/// same words whatever the path is.
pub proof fn law_error_names_irregular_path(one: String, other: String)
    ensures
        ({
            let text = (OpenError::NotRegular { path: one }).text();
            let other_text = (OpenError::NotRegular { path: other }).text();
            &&& text.len() >= one@.len()
            &&& text.skip(text.len() - one@.len()) == one@
            &&& text.take(text.len() - one@.len()) == other_text.take(
                other_text.len() - other@.len(),
            )
        }),
{
    let text = (OpenError::NotRegular { path: one }).text();
    let other_text = (OpenError::NotRegular { path: other }).text();
    assert(text.skip(text.len() - one@.len()) =~= one@);
    assert(text.take(text.len() - one@.len()) =~= other_text.take(
        other_text.len() - other@.len(),
    ));
}

/// A text is put together from fixed pieces around the name of an operation.
pub open spec fn frames_operation(before: Seq<char>, after: Seq<char>) -> bool {
    forall|operation: NativeOperation|
        #[trigger] (OpenError::MissingOperation { operation }).text() == before + operation.name()
            + after
}

/// The error for a missing operation names it, in the same words whichever it
/// is.
pub proof fn law_error_names_missing_operation()
    ensures
        exists|before: Seq<char>, after: Seq<char>| frames_operation(before, after),
{
    let before = "Turso requires native io_uring "@;
    let after = "; FTRUNCATE requires Linux 6.9+ (no blocking fallback permitted)"@;
    assert(frames_operation(before, after));
}

} // verus!
