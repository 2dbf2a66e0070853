//! What the calls of the adapter do, in plain terms.
//!
//! Each law here takes a call that was made, by what its function promises of
//! it, and says what came of it in terms of the arguments alone: numbers are
//! compared with the limits themselves, texts are taken apart, and every branch
//! is told apart by what the caller handed in.

use vstd::prelude::*;

use crate::adapter::{all_settled, read_only_requested, CompioIo, WaitError};
use crate::bridge::{check_range, total, Caller, Endpoint, Job, Operation, Queue};
use crate::budget::{Budget, ReadBuffer, Reservation};
use crate::buffer::{
    buffer_shape, charges_of, law_overflow_is_told_apart, lemma_measured, lengths_of, measured,
    BufferShape, Retention,
};
use crate::driver::{
    awaits, transition, Driver, DriverAction, DriverEvent, Status,
};
use crate::error::{OpenError, Rejection};
use crate::execution::{begins, interruption, Execution, Failure, Outcome, Started, Step};
use crate::file::{DiskFile, WriteGrant};
use crate::filesystem::{FileId, FileState};
use crate::lifetime::Lifetime;
use crate::native::{
    check_native_driver, check_native_filesystem_support, check_native_operations,
    law_first_missing_is_first, law_native_needs_every_operation, required, supported_numbers,
    uses_io_uring, Platform, RuntimeDriver,
};
use crate::opening::{
    law_accepted_request_is_planned, open_refusal, path_file_name, path_parent, plan_open,
    step_after, Metadata, OpenPlan, OpenStep, Opening,
};
use crate::options::Options;

verus! {

/// The number that an explicit limit allows, or the largest that can be counted.
pub open spec fn most(limit: Option<usize>) -> int {
    match limit {
        Some(most) => most as int,
        None => usize::MAX as int,
    }
}

/// The capacity of a read buffer that may be there.
pub open spec fn idle_bytes(buffer: Option<ReadBuffer>) -> int {
    match buffer {
        Some(buffer) => buffer.capacity as int,
        None => 0,
    }
}

/// The call is made on the thread and in the runtime that opened the connection,
/// while its driver lives.
pub open spec fn is_here(endpoint: Endpoint, caller: Caller) -> bool {
    &&& caller.same_thread
    &&& caller.alive
    &&& caller.runtime_fd == Some(endpoint.runtime_fd)
}

/// The idle read buffer of a queue, if it could be locked, is charged to the
/// budget, and the budget is within the limit on bytes.
pub open spec fn accounted(budget: Budget, idle: Option<ReadBuffer>) -> bool {
    &&& idle_bytes(idle) <= budget.bytes
    &&& budget.bytes <= most(budget.limits.max_retained_bytes)
}

/// Options are refused exactly where an explicit limit is zero.
pub proof fn law_validating_options(options: Options, result: Result<(), OpenError>)
    requires
        call_ensures(Options::validate, (&options,), result),
    ensures
        result == if options.max_outstanding_operations == Some(0usize)
            || options.max_retained_bytes == Some(0usize) {
            Err::<(), OpenError>(OpenError::ZeroLimit)
        } else {
            Ok(())
        },
{
}

/// A range is refused exactly where it ends behind the last offset or is longer
/// than a completion can report.
pub proof fn law_checking_a_range(offset: u64, length: usize, result: Result<(), Rejection>)
    requires
        call_ensures(check_range, (offset, length), result),
    ensures
        result == if offset + length > i64::MAX || length > i32::MAX {
            Err::<(), Rejection>(Rejection::RangeExceeded)
        } else {
            Ok(())
        },
{
}

/// A call is accepted exactly where the connection was opened.
pub proof fn law_checking_a_caller(
    endpoint: Endpoint,
    caller: Caller,
    result: Result<(), Rejection>,
)
    requires
        call_ensures(Endpoint::check, (&endpoint, &caller), result),
    ensures
        result == if is_here(endpoint, caller) {
            Ok::<(), Rejection>(())
        } else {
            Err(Rejection::ForeignContext)
        },
{
}

/// A new connection has nothing outstanding and nothing queued, and nothing of
/// it has ended.
pub proof fn law_making_a_connection<C, W>(
    runtime_fd: i32,
    limits: Options,
    parts: (Endpoint, Budget, Queue<C, W>, Lifetime),
)
    requires
        call_ensures(Endpoint::new::<C, W>, (runtime_fd, limits), parts),
    ensures
        parts.0.runtime_fd == runtime_fd,
        parts.1.operations == 0,
        parts.1.bytes == 0,
        parts.1.limits == limits,
        parts.2.jobs@.len() == 0,
        parts.2.read_buffer is None,
        parts.3.alive,
        !parts.3.closed,
{
}

/// Reserving succeeds exactly where there is room for one more operation, and
/// for the bytes once an idle read buffer has given way. What is charged is one
/// operation and the bytes.
pub proof fn law_reserving<C, W>(
    endpoint: Endpoint,
    caller: Caller,
    budget: &mut Budget,
    queue: &mut Queue<C, W>,
    bytes: usize,
    result: Result<Reservation, Rejection>,
)
    requires
        call_ensures(
            Endpoint::reserve::<C, W>,
            (&endpoint, &caller, budget, Some(queue), bytes),
            result,
        ),
        accounted(*old(budget), old(queue).read_buffer),
    ensures
        ({
            let room = old(budget).operations < most(old(budget).limits.max_outstanding_operations);
            let idle = idle_bytes(old(queue).read_buffer);
            let limit = most(old(budget).limits.max_retained_bytes);
            &&& final(queue).jobs@ == old(queue).jobs@
            &&& final(budget).limits == old(budget).limits
            &&& result is Ok <==> is_here(endpoint, caller) && room && old(budget).bytes - idle
                + bytes <= limit
            &&& result == Err::<Reservation, Rejection>(Rejection::ForeignContext) <==> !is_here(
                endpoint,
                caller,
            )
            &&& result is Err && is_here(endpoint, caller) ==> result->Err_0 == (
            Rejection::LimitsExceeded { limits: old(budget).limits })
            &&& result matches Ok(reservation) ==> {
                &&& reservation.bytes == bytes
                &&& reservation.read_buffer is None
                &&& final(budget).operations == old(budget).operations + 1
                &&& final(budget).bytes == old(budget).bytes + bytes - idle + idle_bytes(
                    final(queue).read_buffer,
                )
            }
            &&& result is Err ==> {
                &&& final(budget).operations == old(budget).operations
                &&& final(budget).bytes == old(budget).bytes - idle + idle_bytes(
                    final(queue).read_buffer,
                )
            }
            &&& final(queue).read_buffer == if is_here(endpoint, caller) && room
                && old(budget).bytes + bytes > limit {
                None
            } else {
                old(queue).read_buffer
            }
        }),
{
}

/// Where the queue is locked further up, reserving still succeeds exactly where
/// the request fits as it is.
pub proof fn law_reserving_without_the_queue<C, W>(
    endpoint: Endpoint,
    caller: Caller,
    budget: &mut Budget,
    bytes: usize,
    result: Result<Reservation, Rejection>,
)
    requires
        call_ensures(
            Endpoint::reserve::<C, W>,
            (&endpoint, &caller, budget, None, bytes),
            result,
        ),
    ensures
        ({
            let room = old(budget).operations < most(old(budget).limits.max_outstanding_operations);
            let fits = old(budget).bytes + bytes <= most(old(budget).limits.max_retained_bytes);
            if !is_here(endpoint, caller) {
                &&& result == Err::<Reservation, Rejection>(Rejection::ForeignContext)
                &&& *final(budget) == *old(budget)
            } else if !room {
                &&& result == Err::<Reservation, Rejection>(
                    Rejection::LimitsExceeded { limits: old(budget).limits },
                )
                &&& *final(budget) == *old(budget)
            } else if !fits {
                &&& result == Err::<Reservation, Rejection>(Rejection::ReentrantQueue)
                &&& *final(budget) == *old(budget)
            } else {
                &&& result == Ok::<Reservation, Rejection>(
                    Reservation { bytes, read_buffer: None },
                )
                &&& final(budget).operations == old(budget).operations + 1
                &&& final(budget).bytes == old(budget).bytes + bytes
                &&& final(budget).limits == old(budget).limits
            }
        }),
{
}

/// Reserving a read succeeds exactly where there is room for one more operation
/// and an idle read buffer is large enough or, without it, the bytes fit. An
/// idle buffer that is large enough comes with the reservation and is charged
/// only once.
pub proof fn law_reserving_a_read<C, W>(
    endpoint: Endpoint,
    caller: Caller,
    budget: &mut Budget,
    queue: &mut Queue<C, W>,
    length: usize,
    result: Result<Reservation, Rejection>,
)
    requires
        call_ensures(
            Endpoint::reserve_read::<C, W>,
            (&endpoint, &caller, budget, Some(queue), length),
            result,
        ),
        accounted(*old(budget), old(queue).read_buffer),
    ensures
        ({
            let room = old(budget).operations < most(old(budget).limits.max_outstanding_operations);
            let idle = idle_bytes(old(queue).read_buffer);
            let limit = most(old(budget).limits.max_retained_bytes);
            let reusable = old(queue).read_buffer is Some && idle >= length;
            &&& final(queue).jobs@ == old(queue).jobs@
            &&& final(budget).limits == old(budget).limits
            &&& result is Ok <==> is_here(endpoint, caller) && room && (reusable
                || old(budget).bytes - idle + length <= limit)
            &&& result == Err::<Reservation, Rejection>(Rejection::ForeignContext) <==> !is_here(
                endpoint,
                caller,
            )
            &&& result is Err && is_here(endpoint, caller) ==> result->Err_0 == (
            Rejection::LimitsExceeded { limits: old(budget).limits })
            &&& result matches Ok(reservation) ==> {
                &&& final(budget).operations == old(budget).operations + 1
                &&& if reusable {
                    &&& reservation.bytes == 0
                    &&& reservation.read_buffer == old(queue).read_buffer
                    &&& final(queue).read_buffer is None
                    &&& final(budget).bytes == old(budget).bytes
                } else {
                    &&& reservation.bytes == length
                    &&& reservation.read_buffer is None
                    &&& final(budget).bytes == old(budget).bytes + length - idle + idle_bytes(
                        final(queue).read_buffer,
                    )
                }
            }
            &&& result is Err ==> {
                &&& final(budget).operations == old(budget).operations
                &&& final(budget).bytes == old(budget).bytes - idle + idle_bytes(
                    final(queue).read_buffer,
                )
            }
        }),
{
}

/// A read cannot be reserved while the queue is locked further up.
pub proof fn law_reserving_a_read_without_the_queue<C, W>(
    endpoint: Endpoint,
    caller: Caller,
    budget: &mut Budget,
    length: usize,
    result: Result<Reservation, Rejection>,
)
    requires
        call_ensures(
            Endpoint::reserve_read::<C, W>,
            (&endpoint, &caller, budget, None, length),
            result,
        ),
    ensures
        *final(budget) == *old(budget),
        result == Err::<Reservation, Rejection>(
            if is_here(endpoint, caller) {
                Rejection::ReentrantQueue
            } else {
                Rejection::ForeignContext
            },
        ),
{
}

/// A queued job is the last to leave, with everything that was handed in, and
/// nothing else of the queue changes. Where the queue is locked, everything
/// comes back.
pub proof fn law_queueing<C, W>(
    file: DiskFile,
    endpoint: Endpoint,
    queue: Option<&mut Queue<C, W>>,
    operation: Operation<W>,
    completion: C,
    reservation: Reservation,
    result: Result<(), (Rejection, Job<C, W>)>,
)
    requires
        call_ensures(
            DiskFile::submit::<C, W>,
            (&file, &endpoint, queue, operation, completion, reservation),
            result,
        ),
    ensures
        match queue {
            Some(q) => {
                let jobs = final(q).jobs@;
                &&& result is Ok
                &&& jobs.len() == q.jobs@.len() + 1
                &&& jobs.take(q.jobs@.len() as int) == q.jobs@
                &&& jobs.last().file == file.index
                &&& jobs.last().operation == Some(operation)
                &&& jobs.last().completion == completion
                &&& jobs.last().reservation == Some(reservation)
                &&& final(q).read_buffer == q.read_buffer
            },
            None => {
                &&& result matches Err((rejection, job))
                &&& rejection == Rejection::ReentrantQueue
                &&& job.file == file.index
                &&& job.operation == Some(operation)
                &&& job.completion == completion
                &&& job.reservation == Some(reservation)
            },
        },
{
    match queue {
        Some(q) => {
            assert(final(q).jobs@.take(q.jobs@.len() as int) =~= q.jobs@);
        },
        None => {},
    }
}

/// What leaves the queue is the job that has waited longest, and the others move
/// up by one.
pub proof fn law_taking_a_job<C, W>(queue: &mut Queue<C, W>, job: Option<Job<C, W>>)
    requires
        call_ensures(Queue::<C, W>::pop, (queue,), job),
    ensures
        job is None <==> old(queue).jobs@.len() == 0,
        job matches Some(job) ==> {
            &&& job == old(queue).jobs@[0]
            &&& final(queue).jobs@.len() == old(queue).jobs@.len() - 1
            &&& forall|i: int|
                0 <= i < final(queue).jobs@.len() ==> #[trigger] final(queue).jobs@[i]
                    == old(queue).jobs@[i + 1]
        },
        job is None ==> final(queue).jobs@.len() == 0,
        final(queue).read_buffer == old(queue).read_buffer,
{
}

/// When the driver ends, the connection is dead, the queue is empty, and the
/// completion of every job that waited comes out, in order.
pub proof fn law_ending_the_driver<C, W>(
    lifetime: &mut Lifetime,
    queue: &mut Queue<C, W>,
    budget: &mut Budget,
    completions: Vec<C>,
)
    requires
        call_ensures(Lifetime::end::<C, W>, (lifetime, Some(queue), budget), completions),
    ensures
        !final(lifetime).alive,
        final(lifetime).closed == old(lifetime).closed,
        final(queue).jobs@.len() == 0,
        final(queue).read_buffer is None,
        completions@.len() == old(queue).jobs@.len(),
        forall|i: int|
            0 <= i < completions@.len() ==> #[trigger] completions@[i]
                == old(queue).jobs@[i].completion,
{
}

/// Closing a connection closes it, and leaves its driver alive.
pub proof fn law_closing_a_connection(lifetime: &mut Lifetime, nothing: ())
    requires
        call_ensures(Lifetime::close, (lifetime,), nothing),
    ensures
        final(lifetime).closed,
        final(lifetime).alive == old(lifetime).alive,
{
}

/// A retired job gives back its reservation and hands out its completion.
pub proof fn law_retiring_a_job<C, W>(job: Job<C, W>, budget: &mut Budget, completion: C)
    requires
        call_ensures(Job::<C, W>::retire, (job, budget), completion),
        job.reservation matches Some(reservation) ==> {
            &&& old(budget).operations > 0
            &&& reservation.bytes + idle_bytes(reservation.read_buffer) <= old(budget).bytes
        },
    ensures
        completion == job.completion,
        final(budget).limits == old(budget).limits,
        match job.reservation {
            Some(reservation) => {
                &&& final(budget).operations == old(budget).operations - 1
                &&& final(budget).bytes == old(budget).bytes - reservation.bytes - idle_bytes(
                    reservation.read_buffer,
                )
            },
            None => *final(budget) == *old(budget),
        },
{
}

/// A reservation that is given back takes one operation and all that it holds
/// off the budget.
pub proof fn law_giving_a_reservation_back(
    reservation: Reservation,
    budget: &mut Budget,
    nothing: (),
)
    requires
        call_ensures(Reservation::discard, (reservation, budget), nothing),
        old(budget).operations > 0,
        reservation.bytes + idle_bytes(reservation.read_buffer) <= old(budget).bytes,
    ensures
        final(budget).operations == old(budget).operations - 1,
        final(budget).bytes == old(budget).bytes - reservation.bytes - idle_bytes(
            reservation.read_buffer,
        ),
        final(budget).limits == old(budget).limits,
{
}

/// A staging buffer that is given back takes its capacity off the budget.
pub proof fn law_giving_a_buffer_back(
    budget: &mut Budget,
    buffer: Option<ReadBuffer>,
    nothing: (),
)
    requires
        call_ensures(Budget::discard, (budget, buffer), nothing),
        idle_bytes(buffer) <= old(budget).bytes,
    ensures
        final(budget).operations == old(budget).operations,
        final(budget).bytes == old(budget).bytes - idle_bytes(buffer),
        final(budget).limits == old(budget).limits,
{
}

/// A read is staged in the allocation that its reservation brings, else in the
/// cached one, where that is large enough, and otherwise in a new one of its
/// length. What the reservation and the buffers hold together stays charged,
/// less what is given up.
pub proof fn law_staging_a_read<C, W>(
    reservation: &mut Reservation,
    queue: &mut Queue<C, W>,
    budget: &mut Budget,
    length: usize,
    buffer: ReadBuffer,
)
    requires
        call_ensures(
            Reservation::stage::<C, W>,
            (reservation, queue, budget, length),
            buffer,
        ),
        old(reservation).bytes <= old(budget).bytes,
        idle_bytes(old(reservation).read_buffer) <= old(budget).bytes,
        idle_bytes(old(queue).read_buffer) <= old(budget).bytes,
    ensures
        ({
            let brought = old(reservation).read_buffer is Some;
            let found = if brought {
                old(reservation).read_buffer
            } else {
                old(queue).read_buffer
            };
            &&& buffer.data@.len() == length
            &&& final(reservation).bytes == 0
            &&& final(reservation).read_buffer is None
            &&& final(queue).jobs@ == old(queue).jobs@
            &&& final(queue).read_buffer == if brought {
                old(queue).read_buffer
            } else {
                None
            }
            &&& final(budget).operations == old(budget).operations
            &&& final(budget).limits == old(budget).limits
            &&& if found is Some && idle_bytes(found) >= length {
                &&& buffer.capacity == idle_bytes(found)
                &&& final(budget).bytes == old(budget).bytes - old(reservation).bytes
            } else {
                &&& buffer.capacity == length
                &&& final(budget).bytes == old(budget).bytes - idle_bytes(found)
            }
        }),
{
}

/// A read is delivered exactly where it succeeded and its completion is pending:
/// the bytes that arrived, and zeros behind them.
pub proof fn law_delivering_a_read<K>(
    buffer: &mut ReadBuffer,
    result: Result<i32, Failure<K>>,
    status: Status,
    copied: bool,
)
    requires
        call_ensures(ReadBuffer::deliver::<K>, (buffer, &result, &status), copied),
        result matches Ok(read) ==> 0 <= read <= old(buffer).data@.len(),
    ensures
        copied <==> result is Ok && !status.finished && !status.failed,
        final(buffer).data@.len() == old(buffer).data@.len(),
        final(buffer).capacity == old(buffer).capacity,
        forall|i: int|
            0 <= i < final(buffer).data@.len() ==> #[trigger] final(buffer).data@[i] == if copied
                && i >= result->Ok_0 {
                0
            } else {
                old(buffer).data@[i]
            },
{
}

/// The staging buffer that is kept for the next read displaces the one before,
/// which is given back.
pub proof fn law_keeping_a_buffer<C, W>(
    queue: &mut Queue<C, W>,
    buffer: ReadBuffer,
    budget: &mut Budget,
    nothing: (),
)
    requires
        call_ensures(Queue::<C, W>::keep, (queue, buffer, budget), nothing),
        idle_bytes(old(queue).read_buffer) <= old(budget).bytes,
    ensures
        final(queue).jobs@ == old(queue).jobs@,
        final(queue).read_buffer == Some(buffer),
        final(budget).operations == old(budget).operations,
        final(budget).bytes == old(budget).bytes - idle_bytes(old(queue).read_buffer),
        final(budget).limits == old(budget).limits,
{
}

/// An execution that begins and is resumed makes a run: what the two functions
/// promise is what the laws on whole runs start from. The handles of a write
/// come out as they went in.
pub proof fn law_beginning<W, K>(operation: Operation<W>, started: Started<W, K>)
    requires
        operation.valid(),
        call_ensures(Execution::begin::<W, K>, (operation,), started),
    ensures
        call_requires(Execution::begin::<W, K>, (operation,)),
        begins(operation, started.execution, started.first),
        operation matches Operation::Write { buffers, .. } ==> started.buffers@ == buffers@,
{
}

/// Resuming continues the run, and changes nothing of what is known of the file
/// but its length.
pub proof fn law_resuming<K>(
    execution: &mut Execution,
    state: &mut FileState,
    outcome: Outcome<K>,
    step: Step<K>,
)
    requires
        old(execution).valid(),
        old(execution).pending(),
        old(execution).expects(outcome),
        call_ensures(Execution::resume::<K>, (execution, state, outcome), step),
    ensures
        old(execution).resumes(outcome, *final(execution), step),
        final(state).size == old(execution).size_after(outcome, old(state).size),
        final(state).path@ == old(state).path@,
        final(state).id == old(state).id,
{
}

/// A driver starts by looking at the queue.
pub proof fn law_starting_the_driver<K>(started: (Driver<K>, DriverAction<K>))
    requires
        call_ensures(Driver::<K>::start, (), started),
    ensures
        started.0.state is Polling,
        started.1 is Poll,
{
}

/// A driver that is advanced makes a run, over which its laws are stated.
pub proof fn law_advancing_the_driver<K>(
    driver: &mut Driver<K>,
    event: DriverEvent<K>,
    action: DriverAction<K>,
)
    requires
        awaits(old(driver).state, event),
        call_ensures(Driver::<K>::advance, (driver, event), action),
    ensures
        (final(driver).state, action) == transition(old(driver).state, event),
{
}

/// What a completion says of itself: settled with a result or an error, and to
/// be aborted where it has no result.
pub proof fn law_judging_a_completion(status: Status, settled: bool, abort: bool)
    requires
        call_ensures(Status::is_settled, (&status,), settled),
        call_ensures(Status::needs_abort, (&status,), abort),
    ensures
        settled <==> status.finished || status.failed,
        abort <==> !status.finished,
{
}

/// How many bytes a buffer exposes.
pub open spec fn bytes_of(shape: BufferShape) -> int {
    match shape {
        BufferShape::Heap { length } => length as int,
        BufferShape::Shared { length } => length as int,
        BufferShape::SharedView { length } => length as int,
        BufferShape::HeapView { allocation, start } => allocation - start,
        BufferShape::Pooled { length } => length as int,
    }
}

/// A buffer is measured by what it exposes, charged for the allocation behind
/// it, and cannot be written exactly where it is shared.
pub proof fn law_measuring_a_buffer(
    shape: BufferShape,
    length: usize,
    allocation: usize,
    immutable: bool,
)
    requires
        shape.valid(),
        call_ensures(BufferShape::length, (&shape,), length),
        call_ensures(BufferShape::allocation, (&shape,), allocation),
        call_ensures(BufferShape::is_immutable, (&shape,), immutable),
    ensures
        length == bytes_of(shape),
        allocation == match shape {
            BufferShape::HeapView { allocation, .. } => allocation as int,
            _ => bytes_of(shape),
        },
        immutable <==> shape is Shared || shape is SharedView,
{
}

/// How a buffer is retained.
pub proof fn law_retaining_a_buffer(shape: BufferShape, sole_owner: bool, retention: Retention)
    requires
        call_ensures(Retention::from_buffer, (&shape, sole_owner), retention),
    ensures
        retention is Owned <==> sole_owner && !(shape is SharedView),
        retention is Shared <==> !sole_owner && shape is Shared,
{
}

/// A read is admitted exactly where the call is made where the connection was
/// opened, the buffer can be written, the range fits, there is room for one more
/// operation, and an idle read buffer is large enough or the bytes fit without
/// it. It is admitted for its offset and the length of its buffer.
pub proof fn law_admitting_a_read<C, W>(
    file: DiskFile,
    endpoint: Endpoint,
    caller: Caller,
    budget: &mut Budget,
    queue: &mut Queue<C, W>,
    offset: u64,
    shape: BufferShape,
    result: Result<(Operation<W>, Reservation), Rejection>,
)
    requires
        shape.valid(),
        call_ensures(
            DiskFile::pread::<C, W>,
            (&file, &endpoint, &caller, budget, Some(queue), offset, &shape),
            result,
        ),
        accounted(*old(budget), old(queue).read_buffer),
    ensures
        ({
            let length = bytes_of(shape);
            let writable = shape is Heap || shape is HeapView || shape is Pooled;
            let in_range = offset + length <= i64::MAX && length <= i32::MAX;
            let room = old(budget).operations < most(old(budget).limits.max_outstanding_operations);
            let idle = idle_bytes(old(queue).read_buffer);
            let fits = (old(queue).read_buffer is Some && idle >= length) || old(budget).bytes
                - idle + length <= most(old(budget).limits.max_retained_bytes);
            &&& match result {
                Ok((operation, reservation)) => {
                    &&& is_here(endpoint, caller) && writable && in_range && room && fits
                    &&& operation matches Operation::Read { offset: at, length: count }
                    &&& at == offset
                    &&& count == length
                    &&& reservation.bytes + idle_bytes(reservation.read_buffer) >= length
                    &&& final(budget).operations == old(budget).operations + 1
                },
                Err(rejection) => if !is_here(endpoint, caller) {
                    rejection == Rejection::ForeignContext
                } else if !writable {
                    rejection == Rejection::ImmutableReadBuffer
                } else if !in_range {
                    rejection == Rejection::RangeExceeded
                } else {
                    &&& rejection == (Rejection::LimitsExceeded { limits: old(budget).limits })
                    &&& !room || !fits
                },
            }
            &&& result is Err ==> final(budget).operations == old(budget).operations
            &&& final(queue).jobs@ == old(queue).jobs@
        }),
{
}

/// A write is admitted exactly where the call is made where the connection was
/// opened, it has no more than 1024 buffers, their lengths and charges can be
/// counted, the range fits, and there is room for one more operation and for the
/// charges once an idle read buffer has given way. It is admitted for its offset
/// and the length of each buffer.
pub proof fn law_admitting_a_write<C, W>(
    file: DiskFile,
    endpoint: Endpoint,
    caller: Caller,
    budget: &mut Budget,
    queue: &mut Queue<C, W>,
    offset: u64,
    shapes: Vec<BufferShape>,
    result: Result<WriteGrant, Rejection>,
)
    requires
        forall|i: int| 0 <= i < shapes@.len() ==> (#[trigger] shapes@[i]).valid(),
        call_ensures(
            DiskFile::write::<C, W>,
            (&file, &endpoint, &caller, budget, Some(queue), offset, &shapes),
            result,
        ),
        accounted(*old(budget), old(queue).read_buffer),
    ensures
        ({
            let length = total(lengths_of(shapes@));
            let charge = total(charges_of(shapes@));
            let few = shapes@.len() <= 1024;
            let countable = length <= usize::MAX && charge <= usize::MAX;
            let in_range = offset + length <= i64::MAX && length <= i32::MAX;
            let room = old(budget).operations < most(old(budget).limits.max_outstanding_operations);
            let idle = idle_bytes(old(queue).read_buffer);
            let fits = old(budget).bytes - idle + charge <= most(
                old(budget).limits.max_retained_bytes,
            );
            &&& match result {
                Ok(grant) => {
                    &&& is_here(endpoint, caller) && few && countable && in_range && room && fits
                    &&& grant.offset == offset
                    &&& grant.lengths@.len() == shapes@.len()
                    &&& forall|i: int|
                        0 <= i < shapes@.len() ==> #[trigger] grant.lengths@[i] == bytes_of(
                            shapes@[i],
                        )
                    &&& grant.reservation.bytes == charge
                    &&& grant.reservation.read_buffer is None
                    &&& final(budget).operations == old(budget).operations + 1
                },
                Err(rejection) => if !is_here(endpoint, caller) {
                    rejection == Rejection::ForeignContext
                } else if !few {
                    rejection == Rejection::TooManyBuffers
                } else if !countable {
                    rejection == Rejection::LengthOverflow || rejection
                        == Rejection::AllocationOverflow
                } else if !in_range {
                    rejection == Rejection::RangeExceeded
                } else {
                    &&& rejection == (Rejection::LimitsExceeded { limits: old(budget).limits })
                    &&& !room || !fits
                },
            }
            &&& result is Err ==> final(budget).operations == old(budget).operations
            &&& final(queue).jobs@ == old(queue).jobs@
        }),
{
    lemma_measured(shapes@);
    if measured(shapes@) is Err {
        let _ = law_overflow_is_told_apart(shapes@);
    }
}

/// The granted write has the buffers that were handed in, the lengths that were
/// measured and the charge that was made.
pub proof fn law_granting_a_write<W>(
    grant: WriteGrant,
    buffers: Vec<W>,
    granted: (Operation<W>, Reservation),
)
    requires
        grant.valid(),
        buffers@.len() == grant.lengths@.len(),
        call_ensures(WriteGrant::with_buffers::<W>, (grant, buffers), granted),
    ensures
        granted.0 matches Operation::Write { offset, buffers: kept, lengths } && offset
            == grant.offset && kept@ == buffers@ && lengths@ == grant.lengths@,
        granted.1 == grant.reservation,
{
}

/// A barrier is admitted exactly where the call is made where the connection was
/// opened and there is room for one more operation.
pub proof fn law_admitting_a_barrier<C, W>(
    file: DiskFile,
    endpoint: Endpoint,
    caller: Caller,
    budget: &mut Budget,
    queue: &mut Queue<C, W>,
    result: Result<(Operation<W>, Reservation), Rejection>,
)
    requires
        call_ensures(
            DiskFile::sync::<C, W>,
            (&file, &endpoint, &caller, budget, Some(queue)),
            result,
        ),
        accounted(*old(budget), old(queue).read_buffer),
    ensures
        ({
            let room = old(budget).operations < most(old(budget).limits.max_outstanding_operations);
            if !is_here(endpoint, caller) {
                result == Err::<(Operation<W>, Reservation), Rejection>(Rejection::ForeignContext)
            } else if !room {
                result == Err::<(Operation<W>, Reservation), Rejection>(
                    Rejection::LimitsExceeded { limits: old(budget).limits },
                )
            } else {
                &&& result matches Ok((operation, reservation))
                &&& operation is Sync
                &&& reservation.bytes == 0
                &&& reservation.read_buffer is None
                &&& final(budget).operations == old(budget).operations + 1
            }
        }),
        final(budget).bytes == old(budget).bytes,
        final(queue).jobs@ == old(queue).jobs@,
        final(queue).read_buffer == old(queue).read_buffer,
{
}

/// A truncation is admitted exactly where its length is an offset, the call is
/// made where the connection was opened, and there is room for one more
/// operation.
pub proof fn law_admitting_a_truncation<C, W>(
    file: DiskFile,
    endpoint: Endpoint,
    caller: Caller,
    budget: &mut Budget,
    queue: &mut Queue<C, W>,
    length: u64,
    result: Result<(Operation<W>, Reservation), Rejection>,
)
    requires
        call_ensures(
            DiskFile::truncate::<C, W>,
            (&file, &endpoint, &caller, budget, Some(queue), length),
            result,
        ),
        accounted(*old(budget), old(queue).read_buffer),
    ensures
        ({
            let room = old(budget).operations < most(old(budget).limits.max_outstanding_operations);
            if length > i64::MAX {
                result == Err::<(Operation<W>, Reservation), Rejection>(Rejection::RangeExceeded)
            } else if !is_here(endpoint, caller) {
                result == Err::<(Operation<W>, Reservation), Rejection>(Rejection::ForeignContext)
            } else if !room {
                result == Err::<(Operation<W>, Reservation), Rejection>(
                    Rejection::LimitsExceeded { limits: old(budget).limits },
                )
            } else {
                &&& result matches Ok((operation, reservation))
                &&& operation == Operation::<W>::Truncate(length)
                &&& reservation.bytes == 0
                &&& reservation.read_buffer is None
                &&& final(budget).operations == old(budget).operations + 1
            }
        }),
        final(budget).bytes == old(budget).bytes,
        final(queue).jobs@ == old(queue).jobs@,
        final(queue).read_buffer == old(queue).read_buffer,
{
}

/// The length of a file is told, the exclusive lock is granted and no other, and
/// it is never released, nor a hole looked for or made.
pub proof fn law_asking_of_a_file(
    file: DiskFile,
    endpoint: Endpoint,
    caller: Caller,
    state: FileState,
    exclusive: bool,
    size: Result<u64, Rejection>,
    locked: Result<(), Rejection>,
    unlocked: Result<(), Rejection>,
    hole: Result<bool, Rejection>,
    punched: Result<(), Rejection>,
)
    requires
        call_ensures(DiskFile::size, (&file, &endpoint, &caller, &state), size),
        call_ensures(DiskFile::lock_file, (&file, &endpoint, &caller, exclusive), locked),
        call_ensures(DiskFile::unlock_file, (&file,), unlocked),
        call_ensures(DiskFile::has_hole, (&file,), hole),
        call_ensures(DiskFile::punch_hole, (&file,), punched),
    ensures
        size == if is_here(endpoint, caller) {
            Ok::<u64, Rejection>(state.size)
        } else {
            Err(Rejection::ForeignContext)
        },
        locked == if !is_here(endpoint, caller) {
            Err::<(), Rejection>(Rejection::ForeignContext)
        } else if exclusive {
            Ok(())
        } else {
            Err(Rejection::SharedLock)
        },
        unlocked == Err::<(), Rejection>(Rejection::EarlyUnlock),
        hole == Err::<bool, Rejection>(Rejection::SparseFile),
        punched == Err::<(), Rejection>(Rejection::SparseFile),
{
}

/// The files that can be opened, and asked for, are the two that were opened in
/// advance, under their paths, and not to be read alone.
pub proof fn law_opening_a_file(
    io: CompioIo,
    caller: Caller,
    database: FileState,
    wal: FileState,
    path: &str,
    read_only: bool,
    opened: Result<usize, Rejection>,
    id: Result<FileId, Rejection>,
)
    requires
        call_ensures(
            CompioIo::open_preopened,
            (&io, &caller, &database, &wal, path, read_only),
            opened,
        ),
        call_ensures(CompioIo::file_id, (&io, &caller, &database, &wal, path), id),
    ensures
        if read_only {
            opened == Err::<usize, Rejection>(Rejection::ReadOnlyOpen)
        } else if !is_here(io.endpoint, caller) {
            opened == Err::<usize, Rejection>(Rejection::ForeignContext)
        } else if path@ == database.path@ {
            opened == Ok::<usize, Rejection>(0)
        } else if path@ == wal.path@ {
            opened == Ok::<usize, Rejection>(1)
        } else {
            opened matches Err(Rejection::UnknownFile { path: named }) && named@ == path@
        },
        if !is_here(io.endpoint, caller) {
            id == Err::<FileId, Rejection>(Rejection::ForeignContext)
        } else if path@ == database.path@ {
            id == Ok::<FileId, Rejection>(database.id)
        } else if path@ == wal.path@ {
            id == Ok::<FileId, Rejection>(wal.id)
        } else {
            id matches Err(Rejection::UnknownFile { path: named }) && named@ == path@
        },
{
}

/// What Turso cannot await is refused, and a step does nothing.
pub proof fn law_refusing_what_cannot_be_awaited(
    io: CompioIo,
    caller: Caller,
    shared: Result<usize, Rejection>,
    coordinated: bool,
    removed: Result<(), Rejection>,
    stepped: Result<(), Rejection>,
)
    requires
        call_ensures(CompioIo::open_shared_wal_file, (&io, &caller), shared),
        call_ensures(CompioIo::supports_shared_wal_coordination, (&io,), coordinated),
        call_ensures(CompioIo::remove_file, (&io, &caller), removed),
        call_ensures(CompioIo::step, (&io, &caller), stepped),
    ensures
        !coordinated,
        is_here(io.endpoint, caller) ==> {
            &&& shared == Err::<usize, Rejection>(Rejection::SharedWal)
            &&& removed == Err::<(), Rejection>(Rejection::RemoveFile)
            &&& stepped == Ok::<(), Rejection>(())
        },
        !is_here(io.endpoint, caller) ==> {
            &&& shared == Err::<usize, Rejection>(Rejection::ForeignContext)
            &&& removed == Err::<(), Rejection>(Rejection::ForeignContext)
            &&& stepped == Err::<(), Rejection>(Rejection::ForeignContext)
        },
{
}

/// A cancellation aborts exactly the completions without a result, each once and
/// in order.
pub proof fn law_cancelling(
    io: CompioIo,
    caller: Caller,
    statuses: Vec<Status>,
    result: Result<Vec<usize>, Rejection>,
)
    requires
        call_ensures(CompioIo::cancel, (&io, &caller, &statuses), result),
    ensures
        result is Ok <==> is_here(io.endpoint, caller),
        result matches Err(rejection) ==> rejection == Rejection::ForeignContext,
        result matches Ok(aborted) ==> {
            &&& forall|i: int, j: int| 0 <= i < j < aborted@.len() ==> aborted@[i] < aborted@[j]
            &&& forall|i: int|
                0 <= i < aborted@.len() ==> (#[trigger] aborted@[i]) < statuses@.len()
                    && !statuses@[aborted@[i] as int].finished
            &&& forall|index: usize|
                index < statuses@.len() && !(#[trigger] statuses@[index as int]).finished
                    ==> aborted@.contains(index)
        },
{
    match result {
        Ok(aborted) => {
            assert forall|i: int| 0 <= i < aborted@.len() implies (#[trigger] aborted@[i])
                < statuses@.len() && !statuses@[aborted@[i] as int].finished by {
                assert(aborted@.contains(aborted@[i]));
            }
            assert forall|index: usize|
                index < statuses@.len() && !(
                #[trigger] statuses@[index as int]).finished implies aborted@.contains(index) by {
                assert(aborted@.contains(index) <==> index < statuses@.len()
                    && !statuses@[index as int].finished);
            }
        },
        Err(_) => {},
    }
}

/// Draining succeeds exactly where every completion has a result or an error.
pub proof fn law_draining(
    io: CompioIo,
    caller: Caller,
    statuses: Vec<Status>,
    result: Result<(), Rejection>,
)
    requires
        call_ensures(CompioIo::drain_completions, (&io, &caller, &statuses), result),
    ensures
        result is Ok <==> is_here(io.endpoint, caller) && forall|i: int|
            0 <= i < statuses@.len() ==> (#[trigger] statuses@[i]).finished || statuses@[i].failed,
        result matches Err(rejection) ==> rejection == if is_here(io.endpoint, caller) {
            Rejection::SynchronousDrain
        } else {
            Rejection::ForeignContext
        },
{
    if all_settled(statuses@) {
        assert forall|i: int| 0 <= i < statuses@.len() implies (#[trigger] statuses@[i]).finished
            || statuses@[i].failed by {
            assert(statuses@[i].settled());
        }
    } else {
        let i = choose|i: int| 0 <= i < statuses@.len() && !(#[trigger] statuses@[i]).settled();
        assert(!statuses@[i].finished && !statuses@[i].failed);
    }
}

/// Waiting reports the error of a completion, succeeds where it has a result,
/// and is refused while it is pending.
pub proof fn law_waiting<E>(
    io: CompioIo,
    caller: Caller,
    error: Option<E>,
    finished: bool,
    result: Result<(), WaitError<E>>,
)
    requires
        call_ensures(
            CompioIo::wait_for_completion::<E>,
            (&io, &caller, error, finished),
            result,
        ),
    ensures
        result == if !is_here(io.endpoint, caller) {
            Err::<(), WaitError<E>>(WaitError::Rejected(Rejection::ForeignContext))
        } else if error is Some {
            Err(WaitError::Completion(error->0))
        } else if finished {
            Ok(())
        } else {
            Err(WaitError::Rejected(Rejection::SynchronousWait))
        },
{
}

/// A path that names a file is planned: the database is that path, the WAL has
/// `-wal` behind it, and both are in the rest of the path, or in the current
/// directory where there is no rest.
pub proof fn law_planning_an_opening(
    path: &str,
    file_name: Option<String>,
    parent: Option<String>,
    result: Result<OpenPlan, OpenError>,
)
    requires
        call_ensures(plan_open, (path, file_name, parent), result),
    ensures
        result is Ok <==> path@.len() > 0 && file_name is Some,
        result matches Err(error) ==> error == OpenError::NoFileName,
        result matches Ok(plan) ==> {
            &&& plan.database@ == path@
            &&& plan.wal@ == path@ + seq!['-', 'w', 'a', 'l']
            &&& plan.parent@ == if parent is Some && parent->0@.len() > 0 {
                parent->0@
            } else {
                seq!['.']
            }
        },
{
    reveal_strlit("-wal");
    reveal_strlit(".");
    assert("-wal"@ =~= seq!['-', 'w', 'a', 'l']);
    assert("."@ =~= seq!['.']);
}

/// A request is accepted exactly where no explicit limit is zero, the system is
/// Linux or macOS, there is a runtime, and the path is UTF-8 and names a file.
/// It is refused for the first of these that does not hold.
pub proof fn law_requesting(
    platform: Platform,
    options: Options,
    runtime_fd: Option<i32>,
    path: Option<&str>,
    result: Result<Opening, OpenError>,
)
    requires
        call_ensures(Opening::request, (platform, options, runtime_fd, path), result),
    ensures
        if options.max_outstanding_operations == Some(0usize) || options.max_retained_bytes
            == Some(0usize) {
            result == Err::<Opening, OpenError>(OpenError::ZeroLimit)
        } else if !(platform is Linux) && !(platform is MacOs) {
            result == Err::<Opening, OpenError>(OpenError::UnsupportedPlatform)
        } else if runtime_fd is None {
            result == Err::<Opening, OpenError>(OpenError::NoRuntime)
        } else if path is None {
            result == Err::<Opening, OpenError>(OpenError::NotUtf8)
        } else if path->0@.len() == 0 || path_file_name(path->0@) is None {
            result == Err::<Opening, OpenError>(OpenError::NoFileName)
        } else {
            &&& result matches Ok(opening)
            &&& opening.valid()
            &&& opening.step is OpenParent
            &&& opening.options == options
            &&& Some(opening.runtime_fd) == runtime_fd
            &&& opening.plan.database@ == path->0@
            &&& opening.plan.wal@ == path->0@ + seq!['-', 'w', 'a', 'l']
            &&& match path_parent(path->0@) {
                Some(parent) => opening.plan.parent@ == if parent.len() > 0 {
                    parent
                } else {
                    seq!['.']
                },
                None => opening.plan.parent@ == seq!['.'],
            }
        },
{
    reveal_strlit("-wal");
    reveal_strlit(".");
    assert("-wal"@ =~= seq!['-', 'w', 'a', 'l']);
    assert("."@ =~= seq!['.']);
}

/// A strict request is answered by the native check where that failed, and like
/// any other where it succeeded.
pub proof fn law_requesting_strictly(
    native: Result<(), OpenError>,
    platform: Platform,
    options: Options,
    runtime_fd: Option<i32>,
    path: Option<&str>,
    result: Result<Opening, OpenError>,
)
    requires
        call_ensures(
            Opening::request_strict,
            (native, platform, options, runtime_fd, path),
            result,
        ),
    ensures
        native matches Err(error) ==> result == Err::<Opening, OpenError>(error),
        native is Ok ==> {
            &&& result is Ok <==> open_refusal(platform, options, runtime_fd, path) is None
            &&& result matches Err(error) ==> open_refusal(platform, options, runtime_fd, path)
                == Some(error)
            &&& result matches Ok(opening) ==> opening.step is OpenParent
                && opening.plan.database@ == path->0@ && opening.options == options
        },
{
    if native is Ok {
        law_accepted_request_is_planned(result, platform, options, runtime_fd, path);
    }
}

/// A step that succeeded is followed by the next, unless the metadata that it
/// read is of something other than a regular file, or of the database where it
/// is to be of the WAL.
pub proof fn law_advancing_an_opening(
    opening: &mut Opening,
    metadata: Metadata,
    result: Result<OpenStep, OpenError>,
)
    requires
        old(opening).valid(),
        !(old(opening).step is Attach),
        call_ensures(Opening::advance, (opening, metadata), result),
    ensures
        call_requires(Opening::advance, (opening, metadata)),
        ({
            let reads = old(opening).step is StatDatabase || old(opening).step is StatWal;
            if reads && !metadata.is_file {
                &&& result matches Err(OpenError::NotRegular { path })
                &&& path@ == if old(opening).step is StatDatabase {
                    old(opening).plan.database@
                } else {
                    old(opening).plan.wal@
                }
                &&& *final(opening) == *old(opening)
            } else if old(opening).step is StatWal && old(opening).database->0.id == metadata.id {
                &&& result == Err::<OpenStep, OpenError>(OpenError::SameFile)
                &&& *final(opening) == *old(opening)
            } else {
                &&& result == Ok::<OpenStep, OpenError>(step_after(old(opening).step))
                &&& final(opening).step == step_after(old(opening).step)
                &&& final(opening).valid()
            }
        }),
{
}

/// An opening whose files are ready hands out what was read of each.
pub proof fn law_finishing_an_opening(opening: Opening, files: (FileState, FileState))
    requires
        opening.valid(),
        opening.step is Attach,
        call_ensures(Opening::finish, (opening,), files),
    ensures
        call_requires(Opening::finish, (opening,)),
        opening.database == Some(files.0),
        opening.wal == Some(files.1),
        files.0.path@ == opening.plan.database@,
        files.1.path@ == opening.plan.wal@,
        files.0.id != files.1.id,
{
}

/// Only the io_uring driver on Linux is native.
pub proof fn law_checking_the_driver(
    platform: Platform,
    driver: Option<RuntimeDriver>,
    result: Result<(), OpenError>,
)
    requires
        call_ensures(check_native_driver, (platform, driver), result),
    ensures
        result == if !(platform is Linux) {
            Err::<(), OpenError>(OpenError::NativeRequiresLinux)
        } else if driver is None {
            Err(OpenError::NoRuntime)
        } else if driver->0 is IoUring {
            Ok(())
        } else {
            Err(OpenError::FallbackDriver)
        },
{
}

/// The check of the operations succeeds exactly where all seven are supported,
/// and otherwise names the first that is not.
pub proof fn law_checking_the_operations(supported: Vec<bool>, result: Result<(), OpenError>)
    requires
        supported@.len() == 7,
        call_ensures(check_native_operations, (&supported,), result),
    ensures
        call_requires(check_native_operations, (&supported,)),
        result is Ok <==> forall|i: int| 0 <= i < 7 ==> #[trigger] supported@[i],
        result matches Err(error) ==> exists|i: int|
            {
                &&& 0 <= i < 7
                &&& !(#[trigger] supported@[i])
                &&& error == (OpenError::MissingOperation { operation: required()[i] })
                &&& forall|j: int| 0 <= j < i ==> #[trigger] supported@[j]
            },
{
    law_first_missing_is_first(required(), supported@);
}

/// Native support is granted exactly on Linux, with the io_uring driver, and
/// where the kernel supports opening, inspecting, reading, writing, syncing,
/// truncating and closing.
pub proof fn law_checking_native_support(
    platform: Platform,
    driver: Option<RuntimeDriver>,
    probe: io_uring::Probe,
    result: Result<(), OpenError>,
)
    requires
        call_ensures(check_native_filesystem_support, (platform, driver, &probe), result),
    ensures
        ({
            let numbers = supported_numbers(probe);
            &&& result is Ok <==> {
                &&& platform is Linux
                &&& driver == Some(RuntimeDriver::IoUring)
                &&& numbers.contains(18)
                &&& numbers.contains(21)
                &&& numbers.contains(22)
                &&& numbers.contains(23)
                &&& numbers.contains(3)
                &&& numbers.contains(55)
                &&& numbers.contains(19)
            }
            &&& result matches Err(OpenError::MissingOperation { operation })
                ==> !numbers.contains(operation.number())
        }),
{
    law_native_needs_every_operation(platform, driver, supported_numbers(probe));
}

/// The text of a refusal or an error is the one that its laws speak of.
pub proof fn law_telling_in_words(
    rejection: Rejection,
    error: OpenError,
    message: String,
    error_message: String,
)
    requires
        call_ensures(Rejection::message, (&rejection,), message),
        call_ensures(OpenError::message, (&error,), error_message),
    ensures
        message@ == rejection.text(),
        error_message@ == error.text(),
{
}

/// A budget starts with nothing outstanding, and admits exactly up to the limit
/// or to what can be counted.
pub proof fn law_asking_a_budget(
    limits: Options,
    new: Budget,
    budget: Budget,
    bytes: usize,
    starts: bool,
    retains: bool,
)
    requires
        call_ensures(Budget::new, (limits,), new),
        call_ensures(Budget::can_start, (&budget,), starts),
        call_ensures(Budget::can_retain, (&budget, bytes), retains),
    ensures
        new.operations == 0,
        new.bytes == 0,
        new.limits == limits,
        starts <==> budget.operations < most(budget.limits.max_outstanding_operations),
        retains <==> budget.bytes + bytes <= most(budget.limits.max_retained_bytes),
{
}

/// Charging counts one operation and the bytes, which the reservation then
/// holds.
pub proof fn law_charging(budget: &mut Budget, bytes: usize, reservation: Reservation)
    requires
        old(budget).operations < most(old(budget).limits.max_outstanding_operations),
        old(budget).bytes + bytes <= most(old(budget).limits.max_retained_bytes),
        call_ensures(Budget::charge, (budget, bytes), reservation),
    ensures
        call_requires(Budget::charge, (budget, bytes)),
        reservation.bytes == bytes,
        reservation.read_buffer is None,
        final(budget).operations == old(budget).operations + 1,
        final(budget).bytes == old(budget).bytes + bytes,
        final(budget).limits == old(budget).limits,
{
}

/// Releasing the bytes of a reservation takes them off the budget and leaves its
/// operation and its buffer.
pub proof fn law_releasing_bytes(
    reservation: &mut Reservation,
    budget: &mut Budget,
    nothing: (),
)
    requires
        call_ensures(Reservation::release_bytes, (reservation, budget), nothing),
        old(reservation).bytes <= old(budget).bytes,
    ensures
        final(reservation).bytes == 0,
        final(reservation).read_buffer == old(reservation).read_buffer,
        final(budget).operations == old(budget).operations,
        final(budget).bytes == old(budget).bytes - old(reservation).bytes,
        final(budget).limits == old(budget).limits,
{
}

/// A connection begins alive and not closed, and a call is described as it is.
pub proof fn law_describing_a_call(
    new: Lifetime,
    lifetime: Lifetime,
    same_thread: bool,
    runtime_fd: Option<i32>,
    caller: Caller,
)
    requires
        call_ensures(Lifetime::new, (), new),
        call_ensures(Lifetime::caller, (&lifetime, same_thread, runtime_fd), caller),
    ensures
        new.alive,
        !new.closed,
        caller.same_thread == same_thread,
        caller.alive == lifetime.alive,
        caller.runtime_fd == runtime_fd,
{
}

/// A failed call keeps the kind of its error, and is an interruption exactly
/// where the kind is.
pub proof fn law_judging_a_failure(
    kind: std::io::ErrorKind,
    outcome: Outcome<std::io::ErrorKind>,
)
    requires
        call_ensures(Outcome::<std::io::ErrorKind>::failed, (kind,), outcome),
    ensures
        outcome matches Outcome::Failed { kind: kept, interrupted } && kept == kind && interrupted
            == interruption(kind),
{
}

/// A driver is native exactly where it uses io_uring.
pub proof fn law_judging_a_driver(
    driver: compio::driver::DriverType,
    result: RuntimeDriver,
)
    requires
        call_ensures(RuntimeDriver::of, (&driver,), result),
    ensures
        result is IoUring <==> uses_io_uring(driver),
{
}

/// The shape of a buffer is the one that it has.
pub proof fn law_looking_at_a_buffer(buffer: turso::core::Buffer, shape: BufferShape)
    requires
        call_ensures(BufferShape::of, (&buffer,), shape),
    ensures
        shape == buffer_shape(buffer),
{
}

/// Turso's flags decide only whether a file is to be read alone: with equal
/// answers on that, any flags open the same file.
pub proof fn law_opening_with_flags(
    io: CompioIo,
    caller: Caller,
    database: FileState,
    wal: FileState,
    path: &str,
    flags: turso::core::OpenFlags,
    opened: Result<usize, Rejection>,
)
    requires
        call_ensures(
            CompioIo::open_file,
            (&io, &caller, &database, &wal, path, flags),
            opened,
        ),
    ensures
        if read_only_requested(flags) {
            opened == Err::<usize, Rejection>(Rejection::ReadOnlyOpen)
        } else if !is_here(io.endpoint, caller) {
            opened == Err::<usize, Rejection>(Rejection::ForeignContext)
        } else if path@ == database.path@ {
            opened == Ok::<usize, Rejection>(0)
        } else if path@ == wal.path@ {
            opened == Ok::<usize, Rejection>(1)
        } else {
            opened matches Err(Rejection::UnknownFile { path: named }) && named@ == path@
        },
{
}

} // verus!
