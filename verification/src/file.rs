//! The requests that Turso makes of one file.

use vstd::prelude::*;

use crate::bridge::{
    all_sound, cached, check_range, granted, range_fits, reserve_outcome, reserve_read_outcome,
    total, Caller, Endpoint, Job, Operation, Queue, FILES,
};
use crate::budget::{Budget, ReadBuffer, Reservation};
use crate::buffer::{
    charges_of, law_overflow_is_told_apart, lemma_measured, lengths, lengths_of, measure, measured, BufferShape,
};
use crate::error::Rejection;
use crate::filesystem::FileState;

verus! {

/// The most buffers that one write may have.
pub const MAX_WRITE_BUFFERS: usize = 1024;

/// One of the two files of a connection.
pub struct DiskFile {
    /// Its position: the database is first, the WAL second.
    pub index: usize,
}

/// A write that was admitted, before its buffers are retained.
pub struct WriteGrant {
    /// Where the write starts.
    pub offset: u64,
    /// The lengths of its buffers.
    pub lengths: Vec<usize>,
    /// Its charge.
    pub reservation: Reservation,
}

impl WriteGrant {
    /// The range of the write was checked.
    pub open spec fn valid(self) -> bool {
        range_fits(self.offset as int, total(self.lengths@))
    }

    /// Adds the retained buffers and yields the operation and its charge.
    pub fn with_buffers<W>(self, buffers: Vec<W>) -> (grant: (Operation<W>, Reservation))
        requires
            self.valid(),
            buffers@.len() == self.lengths@.len(),
        ensures
            granted(grant.0, grant.1),
            grant.0 == (Operation::Write { offset: self.offset, buffers, lengths: self.lengths }),
            grant.1 == self.reservation,
    {
        (
            Operation::Write { offset: self.offset, buffers, lengths: self.lengths },
            self.reservation,
        )
    }
}

/// Why a write is refused before it is charged, if it is.
pub open spec fn write_refusal(
    endpoint: Endpoint,
    caller: Caller,
    offset: u64,
    shapes: Seq<BufferShape>,
) -> Option<Rejection> {
    if !endpoint.accepts(caller) {
        Some(Rejection::ForeignContext)
    } else if shapes.len() > MAX_WRITE_BUFFERS {
        Some(Rejection::TooManyBuffers)
    } else {
        match measured(shapes) {
            Err(rejection) => Some(rejection),
            Ok((length, _)) => if range_fits(offset as int, length as int) {
                None
            } else {
                Some(Rejection::RangeExceeded)
            },
        }
    }
}

/// Why a read is refused before it is charged, if it is.
pub open spec fn read_refusal(
    endpoint: Endpoint,
    caller: Caller,
    offset: u64,
    shape: BufferShape,
) -> Option<Rejection> {
    if !endpoint.accepts(caller) {
        Some(Rejection::ForeignContext)
    } else if shape is Shared || shape is SharedView {
        Some(Rejection::ImmutableReadBuffer)
    } else if !range_fits(offset as int, shape.exposed() as int) {
        Some(Rejection::RangeExceeded)
    } else {
        None
    }
}

impl DiskFile {
    /// The file is one of the two.
    pub open spec fn valid(self) -> bool {
        self.index < FILES
    }

    /// Queues an admitted operation on this file. Where the queue cannot be
    /// locked, the job comes back with the reason.
    pub fn submit<C, W>(
        &self,
        endpoint: &Endpoint,
        queue: Option<&mut Queue<C, W>>,
        operation: Operation<W>,
        completion: C,
        reservation: Reservation,
    ) -> (result: Result<(), (Rejection, Job<C, W>)>)
        ensures
            ({
                let job = Job {
                    file: self.index,
                    operation: Some(operation),
                    completion,
                    reservation: Some(reservation),
                };
                match queue {
                    Some(q) => {
                        &&& result is Ok
                        &&& final(q).jobs@ == q.jobs@.push(job)
                        &&& final(q).read_buffer == q.read_buffer
                        &&& self.valid() && granted(operation, reservation) && all_sound(q.jobs@)
                            ==> all_sound(final(q).jobs@)
                    },
                    None => result == Err::<(), (Rejection, Job<C, W>)>(
                        (Rejection::ReentrantQueue, job),
                    ),
                }
            }),
    {
        endpoint.enqueue(queue, self.index, operation, completion, reservation)
    }

    /// Admits a write of some buffers, back to back from an offset. What is
    /// charged is the allocation behind each buffer, not just what it exposes.
    pub fn write<C, W>(
        &self,
        endpoint: &Endpoint,
        caller: &Caller,
        budget: &mut Budget,
        queue: Option<&mut Queue<C, W>>,
        offset: u64,
        shapes: &Vec<BufferShape>,
    ) -> (result: Result<WriteGrant, Rejection>)
        requires
            endpoint.accepts(*caller) && shapes@.len() <= MAX_WRITE_BUFFERS ==> forall|i: int|
                0 <= i < shapes@.len() ==> (#[trigger] shapes@[i]).valid(),
        ensures
            match write_refusal(*endpoint, *caller, offset, shapes@) {
                Some(rejection) => {
                    &&& result == Err::<WriteGrant, Rejection>(rejection)
                    &&& *final(budget) == *old(budget)
                    &&& match queue {
                        Some(q) => *final(q) == *q,
                        None => true,
                    }
                },
                None => {
                    let charge = total(charges_of(shapes@)) as usize;
                    let outcome = reserve_outcome(*old(budget), cached(queue), charge);
                    &&& match outcome.verdict {
                        Ok(reservation) => {
                            &&& result matches Ok(grant)
                            &&& grant.valid()
                            &&& grant.offset == offset
                            &&& grant.lengths@ == lengths_of(shapes@)
                            &&& grant.reservation == reservation
                        },
                        Err(rejection) => result == Err::<WriteGrant, Rejection>(rejection),
                    }
                    &&& *final(budget) == outcome.budget
                    &&& match queue {
                        Some(q) => outcome.leaves(*q, *final(q)),
                        None => true,
                    }
                },
            },
    {
        match endpoint.check(caller) {
            Ok(()) => {},
            Err(rejection) => {
                return Err(rejection);
            },
        }
        if shapes.len() > MAX_WRITE_BUFFERS {
            return Err(Rejection::TooManyBuffers);
        }
        proof {
            lemma_measured(shapes@);
        }
        let (length, retained) = match measure(shapes) {
            Ok(measured) => measured,
            Err(rejection) => {
                return Err(rejection);
            },
        };
        match check_range(offset, length) {
            Ok(()) => {},
            Err(rejection) => {
                return Err(rejection);
            },
        }
        match endpoint.reserve(caller, budget, queue, retained) {
            Ok(reservation) => Ok(WriteGrant { offset, lengths: lengths(shapes), reservation }),
            Err(rejection) => Err(rejection),
        }
    }

    /// Admits a read that fills a buffer of the given shape from an offset.
    pub fn pread<C, W>(
        &self,
        endpoint: &Endpoint,
        caller: &Caller,
        budget: &mut Budget,
        queue: Option<&mut Queue<C, W>>,
        offset: u64,
        shape: &BufferShape,
    ) -> (result: Result<(Operation<W>, Reservation), Rejection>)
        requires
            endpoint.accepts(*caller) ==> shape.valid(),
        ensures
            match read_refusal(*endpoint, *caller, offset, *shape) {
                Some(rejection) => {
                    &&& result == Err::<(Operation<W>, Reservation), Rejection>(rejection)
                    &&& *final(budget) == *old(budget)
                    &&& match queue {
                        Some(q) => *final(q) == *q,
                        None => true,
                    }
                },
                None => {
                    let length = shape.exposed();
                    let outcome = reserve_read_outcome(*old(budget), cached(queue), length);
                    &&& match outcome.verdict {
                        Ok(reservation) => {
                            &&& result == Ok::<(Operation<W>, Reservation), Rejection>(
                                (Operation::Read { offset, length }, reservation),
                            )
                            &&& granted(Operation::<W>::Read { offset, length }, reservation)
                        },
                        Err(rejection) => result == Err::<(Operation<W>, Reservation), Rejection>(
                            rejection,
                        ),
                    }
                    &&& *final(budget) == outcome.budget
                    &&& match queue {
                        Some(q) => outcome.leaves(*q, *final(q)),
                        None => true,
                    }
                },
            },
    {
        match endpoint.check(caller) {
            Ok(()) => {},
            Err(rejection) => {
                return Err(rejection);
            },
        }
        if shape.is_immutable() {
            return Err(Rejection::ImmutableReadBuffer);
        }
        let length: usize = shape.length();
        match check_range(offset, length) {
            Ok(()) => {},
            Err(rejection) => {
                return Err(rejection);
            },
        }
        match endpoint.reserve_read(caller, budget, queue, length) {
            Ok(reservation) => Ok((Operation::Read { offset, length }, reservation)),
            Err(rejection) => Err(rejection),
        }
    }

    /// Admits a durability barrier.
    pub fn sync<C, W>(
        &self,
        endpoint: &Endpoint,
        caller: &Caller,
        budget: &mut Budget,
        queue: Option<&mut Queue<C, W>>,
    ) -> (result: Result<(Operation<W>, Reservation), Rejection>)
        ensures
            ({
                let outcome = reserve_outcome(*old(budget), cached(queue), 0);
                if endpoint.accepts(*caller) {
                    &&& result == match outcome.verdict {
                        Ok(reservation) => Ok::<(Operation<W>, Reservation), Rejection>(
                            (Operation::Sync, reservation),
                        ),
                        Err(rejection) => Err(rejection),
                    }
                    &&& *final(budget) == outcome.budget
                    &&& match queue {
                        Some(q) => outcome.leaves(*q, *final(q)),
                        None => true,
                    }
                } else {
                    &&& result == Err::<(Operation<W>, Reservation), Rejection>(
                        Rejection::ForeignContext,
                    )
                    &&& *final(budget) == *old(budget)
                    &&& match queue {
                        Some(q) => *final(q) == *q,
                        None => true,
                    }
                }
            }),
            result matches Ok(grant) ==> granted(grant.0, grant.1),
    {
        match endpoint.reserve(caller, budget, queue, 0) {
            Ok(reservation) => Ok((Operation::Sync, reservation)),
            Err(rejection) => Err(rejection),
        }
    }

    /// Admits a change of the file's length.
    pub fn truncate<C, W>(
        &self,
        endpoint: &Endpoint,
        caller: &Caller,
        budget: &mut Budget,
        queue: Option<&mut Queue<C, W>>,
        length: u64,
    ) -> (result: Result<(Operation<W>, Reservation), Rejection>)
        ensures
            ({
                let outcome = reserve_outcome(*old(budget), cached(queue), 0);
                if range_fits(length as int, 0) && endpoint.accepts(*caller) {
                    &&& result == match outcome.verdict {
                        Ok(reservation) => Ok::<(Operation<W>, Reservation), Rejection>(
                            (Operation::Truncate(length), reservation),
                        ),
                        Err(rejection) => Err(rejection),
                    }
                    &&& *final(budget) == outcome.budget
                    &&& match queue {
                        Some(q) => outcome.leaves(*q, *final(q)),
                        None => true,
                    }
                } else {
                    &&& result == Err::<(Operation<W>, Reservation), Rejection>(
                        if range_fits(length as int, 0) {
                            Rejection::ForeignContext
                        } else {
                            Rejection::RangeExceeded
                        },
                    )
                    &&& *final(budget) == *old(budget)
                    &&& match queue {
                        Some(q) => *final(q) == *q,
                        None => true,
                    }
                }
            }),
            result matches Ok(grant) ==> granted(grant.0, grant.1),
    {
        match check_range(length, 0) {
            Ok(()) => {},
            Err(rejection) => {
                return Err(rejection);
            },
        }
        match endpoint.reserve(caller, budget, queue, 0) {
            Ok(reservation) => Ok((Operation::Truncate(length), reservation)),
            Err(rejection) => Err(rejection),
        }
    }

    /// The length of the file, as far as executed operations have changed it.
    pub fn size(&self, endpoint: &Endpoint, caller: &Caller, state: &FileState) -> (result: Result<
        u64,
        Rejection,
    >)
        ensures
            endpoint.accepts(*caller) ==> result == Ok::<u64, Rejection>(state.size),
            !endpoint.accepts(*caller) ==> result == Err::<u64, Rejection>(
                Rejection::ForeignContext,
            ),
    {
        match endpoint.check(caller) {
            Ok(()) => Ok(state.size),
            Err(rejection) => Err(rejection),
        }
    }

    /// Grants the exclusive lock, which has been held since the file was
    /// opened, and no other.
    pub fn lock_file(&self, endpoint: &Endpoint, caller: &Caller, exclusive: bool) -> (result:
        Result<(), Rejection>)
        ensures
            result == if !endpoint.accepts(*caller) {
                Err::<(), Rejection>(Rejection::ForeignContext)
            } else if !exclusive {
                Err(Rejection::SharedLock)
            } else {
                Ok(())
            },
    {
        match endpoint.check(caller) {
            Ok(()) => {},
            Err(rejection) => {
                return Err(rejection);
            },
        }
        if !exclusive {
            return Err(Rejection::SharedLock);
        }
        Ok(())
    }

    /// Refuses to release the lock, which is held until the file is closed.
    pub fn unlock_file(&self) -> (result: Result<(), Rejection>)
        ensures
            result == Err::<(), Rejection>(Rejection::EarlyUnlock),
    {
        Err(Rejection::EarlyUnlock)
    }

    /// Refuses to look for a hole: sparse files are not supported.
    pub fn has_hole(&self) -> (result: Result<bool, Rejection>)
        ensures
            result == Err::<bool, Rejection>(Rejection::SparseFile),
    {
        Err(Rejection::SparseFile)
    }

    /// Refuses to make a hole: sparse files are not supported.
    pub fn punch_hole(&self) -> (result: Result<(), Rejection>)
        ensures
            result == Err::<(), Rejection>(Rejection::SparseFile),
    {
        Err(Rejection::SparseFile)
    }
}

/// When a read is refused before it is charged, and why. Only a shared buffer
/// cannot be read into; heap memory, whole or in part, and pages of the pool
/// can.
pub proof fn law_when_reads_are_refused(
    endpoint: Endpoint,
    caller: Caller,
    offset: u64,
    shape: BufferShape,
)
    requires
        shape.valid(),
    ensures
        ({
            let length: int = match shape {
                BufferShape::Heap { length } => length as int,
                BufferShape::Shared { length } => length as int,
                BufferShape::SharedView { length } => length as int,
                BufferShape::HeapView { allocation, start } => allocation - start,
                BufferShape::Pooled { length } => length as int,
            };
            let here = caller.same_thread && caller.alive && caller.runtime_fd == Some(
                endpoint.runtime_fd,
            );
            let writable = shape is Heap || shape is HeapView || shape is Pooled;
            let in_range = offset + length <= i64::MAX && length <= i32::MAX;
            let refusal = read_refusal(endpoint, caller, offset, shape);
            &&& shape.exposed() == length
            &&& refusal is None <==> here && writable && in_range
            &&& refusal == Some(Rejection::ForeignContext) <==> !here
            &&& refusal == Some(Rejection::ImmutableReadBuffer) <==> here && !writable
            &&& refusal == Some(Rejection::RangeExceeded) <==> here && writable && !in_range
        }),
{
}

/// Without limits, an ordinary read is admitted: on the connection's own thread
/// and runtime, into memory that can be written, within range, while the
/// accounting has room and the queue is not locked. It is granted for exactly
/// its offset and length, and pays for its staging buffer.
pub proof fn law_ordinary_reads_are_admitted(
    endpoint: Endpoint,
    caller: Caller,
    budget: Budget,
    idle: Option<ReadBuffer>,
    offset: u64,
    shape: BufferShape,
)
    requires
        shape.valid(),
        caller.same_thread,
        caller.alive,
        caller.runtime_fd == Some(endpoint.runtime_fd),
        shape is Heap || shape is HeapView || shape is Pooled,
        offset + shape.exposed() <= i64::MAX,
        shape.exposed() <= i32::MAX,
        budget.limits.max_outstanding_operations is None,
        budget.limits.max_retained_bytes is None,
        budget.operations < usize::MAX,
        budget.bytes + shape.exposed() <= usize::MAX,
    ensures
        read_refusal(endpoint, caller, offset, shape) is None,
        ({
            let outcome = reserve_read_outcome(budget, Some(idle), shape.exposed());
            &&& outcome.verdict matches Ok(reservation)
            &&& outcome.budget.operations == budget.operations + 1
            &&& match reservation.read_buffer {
                Some(buffer) => idle == Some(buffer) && buffer.capacity >= shape.exposed()
                    && outcome.budget.bytes == budget.bytes && reservation.bytes == 0,
                None => reservation.bytes == shape.exposed() && outcome.budget.bytes
                    == budget.bytes + shape.exposed(),
            }
        }),
{
}

/// When a write is refused before it is charged, and why, in the order in which
/// the reasons are looked at.
pub proof fn law_when_writes_are_refused(
    endpoint: Endpoint,
    caller: Caller,
    offset: u64,
    shapes: Seq<BufferShape>,
)
    ensures
        ({
            let here = caller.same_thread && caller.alive && caller.runtime_fd == Some(
                endpoint.runtime_fd,
            );
            let length = total(lengths_of(shapes));
            let few = shapes.len() <= 1024;
            let countable = length <= usize::MAX && total(charges_of(shapes)) <= usize::MAX;
            let in_range = offset + length <= i64::MAX && length <= i32::MAX;
            let refusal = write_refusal(endpoint, caller, offset, shapes);
            &&& refusal is None <==> here && few && countable && in_range
            &&& refusal == Some(Rejection::ForeignContext) <==> !here
            &&& refusal == Some(Rejection::TooManyBuffers) <==> here && !few
            &&& refusal == Some(Rejection::LengthOverflow) || refusal == Some(
                Rejection::AllocationOverflow,
            ) <==> here && few && !countable
            &&& refusal == Some(Rejection::RangeExceeded) <==> here && few && countable
                && !in_range
        }),
{
    lemma_measured(shapes);
    if measured(shapes) is Err {
        let _ = law_overflow_is_told_apart(shapes);
    }
}

/// Without limits, an ordinary write is admitted, and charged for the
/// allocations behind its buffers.
pub proof fn law_ordinary_writes_are_admitted(
    endpoint: Endpoint,
    caller: Caller,
    budget: Budget,
    locked: Option<Option<ReadBuffer>>,
    offset: u64,
    shapes: Seq<BufferShape>,
)
    requires
        caller.same_thread,
        caller.alive,
        caller.runtime_fd == Some(endpoint.runtime_fd),
        shapes.len() <= 1024,
        offset + total(lengths_of(shapes)) <= i64::MAX,
        total(lengths_of(shapes)) <= i32::MAX,
        budget.limits.max_outstanding_operations is None,
        budget.limits.max_retained_bytes is None,
        budget.operations < usize::MAX,
        budget.bytes + total(charges_of(shapes)) <= usize::MAX,
    ensures
        write_refusal(endpoint, caller, offset, shapes) is None,
        ({
            let charge = total(charges_of(shapes));
            let outcome = reserve_outcome(budget, locked, charge as usize);
            &&& outcome.verdict matches Ok(reservation)
            &&& reservation.bytes == charge
            &&& reservation.read_buffer is None
            &&& outcome.budget.operations == budget.operations + 1
            &&& outcome.budget.bytes == budget.bytes + charge
            &&& outcome.cached == locked
        }),
{
    lemma_measured(shapes);
}

} // verus!
