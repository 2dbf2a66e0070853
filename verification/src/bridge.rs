//! Admission, buffer ownership and FIFO order of the I/O of one connection.
//!
//! Only the thread that owns the connection admits and queues operations, so
//! every function here works on state that the caller holds exclusively. The
//! queue is an exception in one respect: its lock may turn out to be held
//! further up the stack. A function that needs the queue takes what an attempt
//! to lock it gave, `None` where the lock was not available.

use std::collections::VecDeque;

use vstd::prelude::*;

use crate::budget::{capacity_of, Budget, ReadBuffer, Reservation};
use crate::error::Rejection;
use crate::lifetime::Lifetime;
use crate::options::Options;

verus! {

/// The largest file offset.
pub const MAX_OFFSET: u64 = 0x7fff_ffff_ffff_ffff;

/// The largest number of bytes that a completion can report.
pub const MAX_COMPLETION: usize = 0x7fff_ffff;

/// How many files a connection has: the database and its WAL.
pub const FILES: usize = 2;

/// A range ends at a representable offset and its length can be reported.
pub open spec fn range_fits(offset: int, length: int) -> bool {
    offset + length <= MAX_OFFSET && length <= MAX_COMPLETION
}

/// Accepts a range that ends at a representable offset and whose length a
/// completion can report.
pub fn check_range(offset: u64, length: usize) -> (result: Result<(), Rejection>)
    ensures
        range_fits(offset as int, length as int) ==> result == Ok::<(), Rejection>(()),
        !range_fits(offset as int, length as int) ==> result == Err::<(), Rejection>(
            Rejection::RangeExceeded,
        ),
{
    let ends_too_late = match offset.checked_add(length as u64) {
        Some(end) => end > MAX_OFFSET,
        None => true,
    };
    if ends_too_late || length > MAX_COMPLETION {
        return Err(Rejection::RangeExceeded);
    }
    Ok(())
}

/// The sum of some lengths.
pub open spec fn total(lengths: Seq<usize>) -> int
    decreases lengths.len(),
{
    if lengths.len() == 0 {
        0
    } else {
        total(lengths.drop_last()) + lengths.last()
    }
}

/// What a queued operation does. `W` is the handle of one write buffer.
pub enum Operation<W> {
    /// Reads so many bytes from an offset.
    Read { offset: u64, length: usize },
    /// Writes buffers of the given lengths back to back from an offset.
    Write { offset: u64, buffers: Vec<W>, lengths: Vec<usize> },
    /// Makes everything written so far durable.
    Sync,
    /// Sets the length of the file.
    Truncate(u64),
}

impl<W> Operation<W> {
    /// The operation's range was checked.
    pub open spec fn valid(self) -> bool {
        match self {
            Operation::Read { offset, length } => range_fits(offset as int, length as int),
            Operation::Write { offset, buffers, lengths } => {
                &&& buffers@.len() == lengths@.len()
                &&& range_fits(offset as int, total(lengths@))
            },
            Operation::Sync => true,
            Operation::Truncate(length) => length <= MAX_OFFSET,
        }
    }
}

/// An operation was admitted with this reservation: its range was checked, and
/// the reservation pays for the staging buffer where it is a read.
pub open spec fn granted<W>(operation: Operation<W>, reservation: Reservation) -> bool {
    &&& operation.valid()
    &&& operation matches Operation::Read { length, .. } ==> reservation.pays_for(length)
}

/// One accepted operation. `C` is the handle of its completion.
pub struct Job<C, W> {
    /// Which of the two files the operation is for.
    pub file: usize,
    /// The operation, until it starts to execute.
    pub operation: Option<Operation<W>>,
    /// What is told the outcome.
    pub completion: C,
    /// The charge of the operation, until it has executed.
    pub reservation: Option<Reservation>,
}

/// The operations that wait for their turn, and the idle read buffer.
pub struct Queue<C, W> {
    /// Accepted operations, oldest first.
    pub jobs: VecDeque<Job<C, W>>,
    /// The one staging allocation that is kept for the next read.
    pub read_buffer: Option<ReadBuffer>,
}

/// The cached read buffer behind an attempt to lock the queue.
pub open spec fn cached<C, W>(queue: Option<&mut Queue<C, W>>) -> Option<Option<ReadBuffer>> {
    match queue {
        Some(queue) => Some(queue.read_buffer),
        None => None,
    }
}

/// Where a call comes from.
#[derive(Clone, Copy, Debug, PartialEq, Eq)]
pub struct Caller {
    /// The call is made on the thread that opened the connection.
    pub same_thread: bool,
    /// The task that executes operations is still there.
    pub alive: bool,
    /// The descriptor of the runtime that the call is made in, if any.
    pub runtime_fd: Option<i32>,
}

/// The connection's identity, against which every call is checked.
pub struct Endpoint {
    /// The descriptor of the runtime in which the connection was opened.
    pub runtime_fd: i32,
}

/// What an attempt to reserve comes to.
pub struct Admission {
    /// The reservation, or why there is none.
    pub verdict: Result<Reservation, Rejection>,
    /// The budget afterwards.
    pub budget: Budget,
    /// The cached read buffer afterwards, where the queue could be locked.
    pub cached: Option<Option<ReadBuffer>>,
}

impl Admission {
    /// The queue after the attempt: its jobs wait as before, and its cached
    /// read buffer is the one that the attempt left.
    pub open spec fn leaves<C, W>(self, before: Queue<C, W>, after: Queue<C, W>) -> bool {
        &&& after.jobs == before.jobs
        &&& self.cached == Some(after.read_buffer)
    }
}

/// The outcome of reserving one operation and so many bytes. An idle read
/// buffer is discarded when the bytes do not fit beside it.
pub open spec fn reserve_outcome(
    budget: Budget,
    cached: Option<Option<ReadBuffer>>,
    bytes: usize,
) -> Admission {
    let exceeded = Err::<Reservation, Rejection>(
        Rejection::LimitsExceeded { limits: budget.limits },
    );
    let admitted = Ok::<Reservation, Rejection>(Reservation { bytes, read_buffer: None });
    if !budget.admits_operation() {
        Admission { verdict: exceeded, budget, cached }
    } else if budget.admits_bytes(bytes) {
        Admission { verdict: admitted, budget: budget.charged(bytes), cached }
    } else {
        match cached {
            None => Admission { verdict: Err(Rejection::ReentrantQueue), budget, cached },
            Some(buffer) => {
                let rest = budget.without_bytes(capacity_of(buffer));
                if rest.admits_bytes(bytes) {
                    Admission {
                        verdict: admitted,
                        budget: rest.charged(bytes),
                        cached: Some(None),
                    }
                } else {
                    Admission { verdict: exceeded, budget: rest, cached: Some(None) }
                }
            },
        }
    }
}

/// The outcome of reserving a read of so many bytes. An idle read buffer that
/// is large enough is handed over with the charge that it already carries.
pub open spec fn reserve_read_outcome(
    budget: Budget,
    cached: Option<Option<ReadBuffer>>,
    length: usize,
) -> Admission {
    match cached {
        None => Admission { verdict: Err(Rejection::ReentrantQueue), budget, cached },
        Some(buffer) => if buffer is Some && capacity_of(buffer) >= length {
            let bare = reserve_outcome(budget, Some(None), 0);
            match bare.verdict {
                Ok(reservation) => Admission {
                    verdict: Ok(Reservation { read_buffer: buffer, ..reservation }),
                    ..bare
                },
                Err(_) => Admission {
                    budget: bare.budget.without_bytes(capacity_of(buffer)),
                    ..bare
                },
            }
        } else {
            reserve_outcome(budget, cached, length)
        },
    }
}

impl Endpoint {
    /// The call is made where the connection was opened, and its driver lives.
    pub open spec fn accepts(self, caller: Caller) -> bool {
        caller.same_thread && caller.alive && caller.runtime_fd == Some(self.runtime_fd)
    }

    /// A connection with nothing outstanding and nothing queued, of which
    /// nothing has ended.
    pub fn new<C, W>(runtime_fd: i32, limits: Options) -> (parts: (
        Endpoint,
        Budget,
        Queue<C, W>,
        Lifetime,
    ))
        ensures
            parts.0.runtime_fd == runtime_fd,
            parts.1 == (Budget { operations: 0, bytes: 0, limits }),
            parts.2.jobs@ == Seq::<Job<C, W>>::empty(),
            parts.2.read_buffer is None,
            parts.3 == (Lifetime { alive: true, closed: false }),
    {
        (Endpoint { runtime_fd }, Budget::new(limits), Queue::new(), Lifetime::new())
    }

    /// Accepts a call on the original thread and runtime while the driver
    /// lives.
    pub fn check(&self, caller: &Caller) -> (result: Result<(), Rejection>)
        ensures
            self.accepts(*caller) ==> result == Ok::<(), Rejection>(()),
            !self.accepts(*caller) ==> result == Err::<(), Rejection>(Rejection::ForeignContext),
    {
        let same_runtime = match caller.runtime_fd {
            Some(runtime_fd) => runtime_fd == self.runtime_fd,
            None => false,
        };
        if !caller.same_thread || !caller.alive || !same_runtime {
            return Err(Rejection::ForeignContext);
        }
        Ok(())
    }

    /// Reserves one operation and so many bytes. An idle read buffer never
    /// stands in the way: it is discarded before the reservation is refused.
    pub fn reserve<C, W>(
        &self,
        caller: &Caller,
        budget: &mut Budget,
        queue: Option<&mut Queue<C, W>>,
        bytes: usize,
    ) -> (result: Result<Reservation, Rejection>)
        ensures
            ({
                let outcome = reserve_outcome(*old(budget), cached(queue), bytes);
                if self.accepts(*caller) {
                    &&& result == outcome.verdict
                    &&& *final(budget) == outcome.budget
                    &&& match queue {
                        Some(q) => outcome.leaves(*q, *final(q)),
                        None => true,
                    }
                } else {
                    &&& result == Err::<Reservation, Rejection>(Rejection::ForeignContext)
                    &&& *final(budget) == *old(budget)
                    &&& match queue {
                        Some(q) => *final(q) == *q,
                        None => true,
                    }
                }
            }),
    {
        match self.check(caller) {
            Ok(()) => {},
            Err(rejection) => {
                return Err(rejection);
            },
        }
        let operation_fits = budget.can_start();
        let mut bytes_fit = budget.can_retain(bytes);
        if operation_fits && !bytes_fit {
            match queue {
                Some(queue) => {
                    let idle = queue.read_buffer.take();
                    budget.discard(idle);
                },
                None => {
                    return Err(Rejection::ReentrantQueue);
                },
            }
            bytes_fit = budget.can_retain(bytes);
        }
        if !operation_fits || !bytes_fit {
            return Err(Rejection::LimitsExceeded { limits: budget.limits });
        }
        Ok(budget.charge(bytes))
    }

    /// Reserves a read of so many bytes. A cached buffer that is large enough
    /// changes hands instead of being charged a second time.
    pub fn reserve_read<C, W>(
        &self,
        caller: &Caller,
        budget: &mut Budget,
        queue: Option<&mut Queue<C, W>>,
        length: usize,
    ) -> (result: Result<Reservation, Rejection>)
        ensures
            ({
                let outcome = reserve_read_outcome(*old(budget), cached(queue), length);
                if self.accepts(*caller) {
                    &&& result == outcome.verdict
                    &&& *final(budget) == outcome.budget
                    &&& match queue {
                        Some(q) => outcome.leaves(*q, *final(q)),
                        None => true,
                    }
                } else {
                    &&& result == Err::<Reservation, Rejection>(Rejection::ForeignContext)
                    &&& *final(budget) == *old(budget)
                    &&& match queue {
                        Some(q) => *final(q) == *q,
                        None => true,
                    }
                }
            }),
            result matches Ok(reservation) ==> reservation.pays_for(length),
    {
        match self.check(caller) {
            Ok(()) => {},
            Err(rejection) => {
                return Err(rejection);
            },
        }
        let queue = match queue {
            Some(queue) => queue,
            None => {
                return Err(Rejection::ReentrantQueue);
            },
        };
        let large_enough = match &queue.read_buffer {
            Some(buffer) => buffer.capacity >= length,
            None => false,
        };
        if !large_enough {
            return self.reserve(caller, budget, Some(queue), length);
        }
        let buffer = queue.read_buffer.take();
        match self.reserve(caller, budget, Some(queue), 0) {
            Ok(mut reservation) => {
                reservation.read_buffer = buffer;
                Ok(reservation)
            },
            Err(rejection) => {
                budget.discard(buffer);
                Err(rejection)
            },
        }
    }

    /// Puts an admitted operation at the end of the queue. Where the queue
    /// cannot be locked, the job comes back with the reason.
    pub fn enqueue<C, W>(
        &self,
        queue: Option<&mut Queue<C, W>>,
        file: usize,
        operation: Operation<W>,
        completion: C,
        reservation: Reservation,
    ) -> (result: Result<(), (Rejection, Job<C, W>)>)
        ensures
            ({
                let job = Job {
                    file,
                    operation: Some(operation),
                    completion,
                    reservation: Some(reservation),
                };
                match queue {
                    Some(q) => {
                        &&& result is Ok
                        &&& final(q).jobs@ == q.jobs@.push(job)
                        &&& final(q).read_buffer == q.read_buffer
                        &&& file < FILES && granted(operation, reservation) && all_sound(q.jobs@)
                            ==> all_sound(final(q).jobs@)
                    },
                    None => result == Err::<(), (Rejection, Job<C, W>)>(
                        (Rejection::ReentrantQueue, job),
                    ),
                }
            }),
    {
        let job = Job {
            file,
            operation: Some(operation),
            completion,
            reservation: Some(reservation),
        };
        match queue {
            Some(queue) => {
                queue.jobs.push_back(job);
                Ok(())
            },
            None => Err((Rejection::ReentrantQueue, job)),
        }
    }
}

/// Every job is sound.
pub open spec fn all_sound<C, W>(jobs: Seq<Job<C, W>>) -> bool {
    forall|i: int| 0 <= i < jobs.len() ==> (#[trigger] jobs[i]).sound()
}

/// The budget after a job's reservation, if it still has one, is given back.
pub open spec fn without_job<C, W>(budget: Budget, job: Job<C, W>) -> Budget {
    match job.reservation {
        Some(reservation) => budget.without_reservation(reservation),
        None => budget,
    }
}

/// The budget after the reservations of some jobs are given back in turn.
pub open spec fn without_jobs<C, W>(budget: Budget, jobs: Seq<Job<C, W>>) -> Budget
    decreases jobs.len(),
{
    if jobs.len() == 0 {
        budget
    } else {
        without_job(without_jobs(budget, jobs.drop_last()), jobs.last())
    }
}

impl<C, W> Job<C, W> {
    /// The job can be executed: it is for one of the two files, and its
    /// operation was admitted with the reservation that it has.
    pub open spec fn sound(self) -> bool {
        &&& self.file < FILES
        &&& self.operation matches Some(operation)
        &&& self.reservation matches Some(reservation)
        &&& granted(operation, reservation)
    }

    /// Ends the job: its operation is dropped, its reservation is given back,
    /// and its completion is handed out.
    pub fn retire(self, budget: &mut Budget) -> (completion: C)
        ensures
            completion == self.completion,
            *final(budget) == without_job(*old(budget), self),
    {
        match self.reservation {
            Some(reservation) => {
                reservation.discard(budget);
            },
            None => {},
        }
        self.completion
    }
}

impl<C, W> Queue<C, W> {
    /// A queue with no operations and no cached buffer.
    pub fn new() -> (queue: Queue<C, W>)
        ensures
            queue.jobs@ == Seq::<Job<C, W>>::empty(),
            queue.read_buffer is None,
    {
        Queue { jobs: VecDeque::new(), read_buffer: None }
    }

    /// Takes the oldest job off the queue.
    pub fn pop(&mut self) -> (job: Option<Job<C, W>>)
        ensures
            final(self).read_buffer == old(self).read_buffer,
            old(self).jobs@.len() == 0 ==> job is None && final(self).jobs@ == old(self).jobs@,
            old(self).jobs@.len() > 0 ==> job == Some(old(self).jobs@.first())
                && final(self).jobs@ == old(self).jobs@.drop_first(),
            all_sound(old(self).jobs@) ==> all_sound(final(self).jobs@),
            all_sound(old(self).jobs@) && job is Some ==> job->0.sound(),
    {
        self.jobs.pop_front()
    }

    /// Empties the queue when its driver is gone: every reservation and the
    /// cached buffer are given back. The completions come out oldest first, to
    /// be aborted where they are still pending.
    pub fn abandon(&mut self, budget: &mut Budget) -> (completions: Vec<C>)
        ensures
            final(self).jobs@ == Seq::<Job<C, W>>::empty(),
            final(self).read_buffer is None,
            completions@ == old(self).jobs@.map_values(|job: Job<C, W>| job.completion),
            *final(budget) == without_jobs(*old(budget), old(self).jobs@).without_bytes(
                capacity_of(old(self).read_buffer),
            ),
    {
        let mut completions: Vec<C> = Vec::new();
        let ghost jobs = self.jobs@;
        let ghost mut done: int = 0;
        loop
            invariant
                0 <= done <= jobs.len(),
                self.jobs@ == jobs.skip(done),
                self.read_buffer == old(self).read_buffer,
                jobs == old(self).jobs@,
                completions@ == jobs.take(done).map_values(|job: Job<C, W>| job.completion),
                *budget == without_jobs(*old(budget), jobs.take(done)),
            ensures
                done == jobs.len(),
                self.jobs@.len() == 0,
            decreases jobs.len() - done,
        {
            match self.pop() {
                Some(job) => {
                    proof {
                        assert(job == jobs[done]);
                        assert(jobs.take(done + 1).drop_last() == jobs.take(done));
                        assert(jobs.skip(done).drop_first() == jobs.skip(done + 1));
                        done = done + 1;
                    }
                    completions.push(job.retire(budget));
                },
                None => {
                    break ;
                },
            }
        }
        assert(jobs.take(done) == jobs);
        let idle = self.read_buffer.take();
        budget.discard(idle);
        completions
    }
}

/// A range is accepted exactly if it ends at an offset that fits an `i64` and
/// its length fits an `i32`.
pub proof fn law_range_fits_offset_and_count(offset: u64, length: usize)
    ensures
        range_fits(offset as int, length as int) <==> offset + length <= i64::MAX && length
            <= i32::MAX,
        MAX_OFFSET == i64::MAX,
        MAX_COMPLETION == i32::MAX,
{
}

/// The total of some lengths is their sum: it adds up over parts, and that of
/// one length is the length.
pub proof fn law_total_adds_up(lengths: Seq<usize>, more: Seq<usize>, length: usize)
    ensures
        total(Seq::empty()) == 0,
        total(seq![length]) == length,
        total(lengths + more) == total(lengths) + total(more),
        total(lengths.push(length)) == total(lengths) + length,
    decreases more.len(),
{
    assert(seq![length].drop_last() =~= Seq::empty());
    assert(lengths.push(length).drop_last() =~= lengths);
    if more.len() == 0 {
        assert(lengths + more =~= lengths);
    } else {
        law_total_adds_up(lengths, more.drop_last(), length);
        assert((lengths + more).drop_last() =~= lengths + more.drop_last());
    }
}

/// An operation is valid exactly if its range fits: a read and a write by where
/// they end and how long they are, a truncation by its length. A barrier always
/// is.
pub proof fn law_valid_operations<W>(operation: Operation<W>)
    ensures
        operation.valid() <==> match operation {
            Operation::Read { offset, length } => offset + length <= i64::MAX && length
                <= i32::MAX,
            Operation::Write { offset, buffers, lengths } => buffers@.len() == lengths@.len()
                && offset + total(lengths@) <= i64::MAX && total(lengths@) <= i32::MAX,
            Operation::Sync => true,
            Operation::Truncate(length) => length <= i64::MAX,
        },
{
}

/// A call is accepted exactly on the thread that opened the connection, in the
/// runtime that opened it, and while the driver lives.
pub proof fn law_accepted_where_opened(endpoint: Endpoint, caller: Caller)
    ensures
        endpoint.accepts(caller) <==> {
            &&& caller.same_thread
            &&& caller.alive
            &&& caller.runtime_fd matches Some(runtime_fd) && runtime_fd == endpoint.runtime_fd
        },
{
}

/// What an attempt to reserve comes to, in numbers. A request that fits beside
/// an idle read buffer leaves it there. One that fits only without it displaces
/// it. Any other is refused for the limits, at the cost of the idle buffer where
/// only bytes were lacking, or because the queue is locked where that cannot be
/// found out.
pub proof fn law_reserving_in_numbers(
    budget: Budget,
    cached: Option<Option<ReadBuffer>>,
    bytes: usize,
)
    requires
        cached matches Some(Some(buffer)) ==> buffer.capacity <= budget.bytes,
    ensures
        ({
            let outcome = reserve_outcome(budget, cached, bytes);
            let idle: int = match cached {
                Some(Some(buffer)) => buffer.capacity as int,
                _ => 0,
            };
            let most_operations: int = match budget.limits.max_outstanding_operations {
                Some(most) => most as int,
                None => usize::MAX as int,
            };
            let most_bytes: int = match budget.limits.max_retained_bytes {
                Some(most) => most as int,
                None => usize::MAX as int,
            };
            &&& outcome.budget.limits == budget.limits
            &&& if budget.operations >= most_operations {
                &&& outcome.verdict == Err::<Reservation, Rejection>(
                    Rejection::LimitsExceeded { limits: budget.limits },
                )
                &&& outcome.budget == budget
                &&& outcome.cached == cached
            } else if budget.bytes + bytes <= most_bytes {
                &&& outcome.verdict == Ok::<Reservation, Rejection>(
                    Reservation { bytes, read_buffer: None },
                )
                &&& outcome.budget.operations == budget.operations + 1
                &&& outcome.budget.bytes == budget.bytes + bytes
                &&& outcome.cached == cached
            } else if cached is None {
                &&& outcome.verdict == Err::<Reservation, Rejection>(Rejection::ReentrantQueue)
                &&& outcome.budget == budget
                &&& outcome.cached is None
            } else if budget.bytes - idle + bytes <= most_bytes {
                &&& outcome.verdict == Ok::<Reservation, Rejection>(
                    Reservation { bytes, read_buffer: None },
                )
                &&& outcome.budget.operations == budget.operations + 1
                &&& outcome.budget.bytes == budget.bytes - idle + bytes
                &&& outcome.cached == Some(None::<ReadBuffer>)
            } else {
                &&& outcome.verdict == Err::<Reservation, Rejection>(
                    Rejection::LimitsExceeded { limits: budget.limits },
                )
                &&& outcome.budget.operations == budget.operations
                &&& outcome.budget.bytes == budget.bytes - idle
                &&& outcome.cached == Some(None::<ReadBuffer>)
            }
        }),
{
}

/// What an attempt to reserve a read comes to, in numbers. An idle buffer that
/// is large enough changes hands, so only the operation counts; where even that
/// is refused, the buffer is given up. Otherwise a read is reserved like any
/// other bytes. It always needs the queue.
pub proof fn law_reserving_reads_in_numbers(
    budget: Budget,
    cached: Option<Option<ReadBuffer>>,
    length: usize,
)
    requires
        cached matches Some(Some(buffer)) ==> buffer.capacity <= budget.bytes,
        budget.limits.max_retained_bytes matches Some(most) ==> budget.bytes <= most,
    ensures
        ({
            let outcome = reserve_read_outcome(budget, cached, length);
            let most_operations: int = match budget.limits.max_outstanding_operations {
                Some(most) => most as int,
                None => usize::MAX as int,
            };
            match cached {
                None => {
                    &&& outcome.verdict == Err::<Reservation, Rejection>(Rejection::ReentrantQueue)
                    &&& outcome.budget == budget
                    &&& outcome.cached is None
                },
                Some(Some(buffer)) => if buffer.capacity < length {
                    outcome == reserve_outcome(budget, cached, length)
                } else if budget.operations >= most_operations {
                    &&& outcome.verdict == Err::<Reservation, Rejection>(
                        Rejection::LimitsExceeded { limits: budget.limits },
                    )
                    &&& outcome.budget.operations == budget.operations
                    &&& outcome.budget.bytes == budget.bytes - buffer.capacity
                    &&& outcome.budget.limits == budget.limits
                    &&& outcome.cached == Some(None::<ReadBuffer>)
                } else {
                    &&& outcome.verdict == Ok::<Reservation, Rejection>(
                        Reservation { bytes: 0, read_buffer: Some(buffer) },
                    )
                    &&& outcome.budget.operations == budget.operations + 1
                    &&& outcome.budget.bytes == budget.bytes
                    &&& outcome.budget.limits == budget.limits
                    &&& outcome.cached == Some(None::<ReadBuffer>)
                },
                Some(None) => outcome == reserve_outcome(budget, cached, length),
            }
        }),
{
}

/// What an attempt to lock the queue shows of the cached read buffer is the one
/// that is there, and nothing where the queue is locked.
pub proof fn law_cache_is_seen_as_it_is<C, W>(queue: Option<&mut Queue<C, W>>)
    ensures
        match queue {
            Some(q) => cached(queue) == Some(q.read_buffer),
            None => cached(queue) is None,
        },
{
}

/// An attempt to reserve touches no job, and leaves the cached read buffer that
/// it says.
pub proof fn law_reserving_touches_no_job<C, W>(
    admission: Admission,
    before: Queue<C, W>,
    after: Queue<C, W>,
)
    ensures
        admission.leaves(before, after) <==> {
            &&& after.jobs == before.jobs
            &&& admission.cached matches Some(buffer) && buffer == after.read_buffer
        },
{
}

/// A job is sound exactly if it is for the database or the WAL and has both its
/// operation and its reservation, of which the one is valid and the other pays
/// for the staging buffer of a read.
pub proof fn law_sound_jobs<C, W>(job: Job<C, W>)
    ensures
        job.sound() <==> {
            &&& job.file == 0 || job.file == 1
            &&& job.operation matches Some(operation) && operation.valid()
            &&& job.reservation is Some
            &&& job.operation->0 matches Operation::Read { length, .. }
                ==> job.reservation->0.pays_for(length)
        },
{
}

/// Giving back jobs one after the other gives back each of their reservations,
/// and a job that has none changes nothing.
pub proof fn law_jobs_give_back_their_reservations<C, W>(
    budget: Budget,
    jobs: Seq<Job<C, W>>,
    job: Job<C, W>,
)
    ensures
        without_jobs(budget, Seq::<Job<C, W>>::empty()) == budget,
        job.reservation is None ==> without_jobs(budget, jobs.push(job)) == without_jobs(
            budget,
            jobs,
        ),
        job.reservation matches Some(reservation) ==> without_jobs(budget, jobs.push(job))
            == without_jobs(budget, jobs).without_reservation(reservation),
        without_job(budget, job) == without_jobs(budget, seq![job]),
{
    assert(jobs.push(job).drop_last() =~= jobs);
    assert(seq![job].drop_last() =~= Seq::empty());
}

} // verus!
