//! How one operation runs.
//!
//! An execution is told what each system call came to and answers with the
//! next call, or with the result for the operation's completion. Reads and
//! writes go on after a partial transfer and after an interruption. A read
//! ends early at the end of the file; a write that makes no progress fails.

use vstd::prelude::*;

use crate::bridge::{range_fits, total, Operation, MAX_OFFSET};
use crate::filesystem::FileState;

verus! {

#[verifier::external_type_specification]
#[verifier::external_body]
pub struct ExErrorKind(std::io::ErrorKind);

/// The kind of a system error is that of an interrupted call.
pub uninterp spec fn interruption(kind: std::io::ErrorKind) -> bool;

/// Compares the kind of a system error with `std::io::ErrorKind::Interrupted`,
/// by the kind's `==`. Claimed of it: the result is a function of the kind.
#[verifier::external_body]
fn is_interruption(kind: std::io::ErrorKind) -> (interrupted: bool)
    ensures
        interrupted == interruption(kind),
{
    kind == std::io::ErrorKind::Interrupted
}

/// The system calls that an execution makes.
#[derive(Clone, Copy, Debug, PartialEq, Eq, Structural)]
pub enum Syscall {
    Pread,
    Pwrite,
    Fsync,
    Ftruncate,
}

impl Syscall {
    /// The name under which a failure of the call is reported.
    pub open spec fn name(self) -> Seq<char> {
        match self {
            Syscall::Pread => "Turso pread"@,
            Syscall::Pwrite => "Turso pwrite"@,
            Syscall::Fsync => "Turso fsync"@,
            Syscall::Ftruncate => "Turso ftruncate"@,
        }
    }

    /// The name under which a failure of the call is reported.
    pub fn label(&self) -> (label: &'static str)
        ensures
            label@ == self.name(),
    {
        match self {
            Syscall::Pread => "Turso pread",
            Syscall::Pwrite => "Turso pwrite",
            Syscall::Fsync => "Turso fsync",
            Syscall::Ftruncate => "Turso ftruncate",
        }
    }
}

/// Why an operation failed. `K` is the kind of a system error.
#[derive(Debug, PartialEq, Eq)]
pub enum Failure<K> {
    /// A system call failed.
    Io { kind: K, syscall: Syscall },
    /// A write made no progress.
    ShortWrite,
}

/// What a system call came to.
#[derive(Debug, PartialEq, Eq)]
pub enum Outcome<K> {
    /// A transfer moved so many bytes.
    Moved(usize),
    /// A call that moves no bytes succeeded.
    Completed,
    /// The call failed, and it may have been for an interruption.
    Failed { kind: K, interrupted: bool },
}

impl Outcome<std::io::ErrorKind> {
    /// What a call that failed with an error of this kind came to.
    pub fn failed(kind: std::io::ErrorKind) -> (outcome: Outcome<std::io::ErrorKind>)
        ensures
            outcome == (Outcome::Failed { kind, interrupted: interruption(kind) }),
    {
        Outcome::Failed { kind, interrupted: is_interruption(kind) }
    }
}

/// What is to be done next.
#[derive(Debug, PartialEq, Eq)]
pub enum Step<K> {
    /// Read into the staging buffer, from a position in it to its end.
    Read { from: usize, offset: u64 },
    /// Write the rest of one buffer, from a position in it.
    Write { buffer: usize, from: usize, offset: u64 },
    /// Make the file durable.
    SyncAll,
    /// Set the length of the file.
    SetLength(u64),
    /// Report the result.
    Finish(Result<i32, Failure<K>>),
}

/// An operation that is being executed.
pub enum Execution {
    /// So many bytes of a read have arrived.
    Read { offset: u64, length: usize, read: usize },
    /// The buffers before `index` and the first bytes of that one are written,
    /// up to `offset` in the file.
    Write { start: u64, offset: u64, lengths: Vec<usize>, index: usize, written: usize },
    /// The file is being made durable.
    Sync,
    /// The file is being cut or extended.
    Truncate(u64),
}

/// A position in a sequence of buffers lies so many bytes from its start, and
/// there is a byte at it.
pub open spec fn points_at(lengths: Seq<usize>, done: int, buffer: int, from: int) -> bool {
    &&& 0 <= buffer < lengths.len()
    &&& 0 <= from < lengths[buffer]
    &&& total(lengths.take(buffer)) + from == done
}

impl Execution {
    /// How many bytes the execution is to move.
    pub open spec fn goal(self) -> int {
        match self {
            Execution::Read { length, .. } => length as int,
            Execution::Write { lengths, .. } => total(lengths@),
            _ => 0,
        }
    }

    /// How many bytes it has moved.
    pub open spec fn done(self) -> int {
        match self {
            Execution::Read { read, .. } => read as int,
            Execution::Write { start, offset, .. } => offset - start,
            _ => 0,
        }
    }

    /// Where in the file its range starts.
    pub open spec fn origin(self) -> int {
        match self {
            Execution::Read { offset, .. } => offset as int,
            Execution::Write { start, .. } => start as int,
            _ => 0,
        }
    }

    /// The lengths of the buffers that are written.
    pub open spec fn buffers(self) -> Seq<usize> {
        match self {
            Execution::Write { lengths, .. } => lengths@,
            _ => Seq::empty(),
        }
    }

    /// The execution stands somewhere within a range that was checked.
    pub open spec fn valid(self) -> bool {
        match self {
            Execution::Read { offset, length, read } => {
                &&& read <= length
                &&& range_fits(offset as int, length as int)
            },
            Execution::Write { start, offset, lengths, index, written } => {
                &&& range_fits(start as int, total(lengths@))
                &&& start <= offset <= start + total(lengths@)
                &&& index <= lengths@.len()
                &&& index == lengths@.len() ==> written == 0 && offset - start == total(lengths@)
                &&& index < lengths@.len() ==> points_at(
                    lengths@,
                    offset - start,
                    index as int,
                    written as int,
                )
            },
            Execution::Sync => true,
            Execution::Truncate(length) => length <= MAX_OFFSET,
        }
    }

    /// The two executions are for the same request.
    pub open spec fn same_request(self, other: Execution) -> bool {
        match (self, other) {
            (
                Execution::Read { offset, length, .. },
                Execution::Read { offset: other_offset, length: other_length, .. },
            ) => offset == other_offset && length == other_length,
            (
                Execution::Write { start, lengths, .. },
                Execution::Write { start: other_start, lengths: other_lengths, .. },
            ) => start == other_start && lengths@ == other_lengths@,
            (Execution::Sync, Execution::Sync) => true,
            (Execution::Truncate(length), Execution::Truncate(other_length)) => length
                == other_length,
            _ => false,
        }
    }

    /// The execution goes on: a call is to be made whose outcome it awaits.
    pub open spec fn pending(self) -> bool {
        match self {
            Execution::Read { .. } | Execution::Write { .. } => self.done() < self.goal(),
            _ => true,
        }
    }

    /// The most bytes that the awaited call can move.
    pub open spec fn room(self) -> int {
        match self {
            Execution::Read { length, read, .. } => length - read,
            Execution::Write { lengths, index, written, .. } => lengths@[index as int] - written,
            _ => 0,
        }
    }

    /// The call that is to be made next.
    pub open spec fn call<K>(self) -> Step<K> {
        match self {
            Execution::Read { offset, read, .. } => Step::Read {
                from: read,
                offset: (offset + read) as u64,
            },
            Execution::Write { offset, index, written, .. } => Step::Write {
                buffer: index,
                from: written,
                offset,
            },
            Execution::Sync => Step::SyncAll,
            Execution::Truncate(length) => Step::SetLength(length),
        }
    }

    /// The call that is awaited can have had this outcome.
    pub open spec fn expects<K>(self, outcome: Outcome<K>) -> bool {
        match (self, outcome) {
            (_, Outcome::Failed { .. }) => true,
            (Execution::Read { .. }, Outcome::Moved(bytes)) => bytes <= self.room(),
            (Execution::Write { .. }, Outcome::Moved(bytes)) => bytes <= self.room(),
            (Execution::Sync, Outcome::Completed) => true,
            (Execution::Truncate(_), Outcome::Completed) => true,
            _ => false,
        }
    }

    /// How many bytes will have been moved after this outcome.
    pub open spec fn done_after<K>(self, outcome: Outcome<K>) -> int {
        match outcome {
            Outcome::Moved(bytes) => self.done() + bytes,
            _ => self.done(),
        }
    }

    /// The result that this outcome settles, if it settles one.
    pub open spec fn verdict<K>(self, outcome: Outcome<K>) -> Option<Result<i32, Failure<K>>> {
        let done = self.done_after(outcome);
        match (self, outcome) {
            (Execution::Read { .. }, Outcome::Failed { kind, interrupted }) => if interrupted {
                None
            } else {
                Some(Err(Failure::Io { kind, syscall: Syscall::Pread }))
            },
            (Execution::Write { .. }, Outcome::Failed { kind, interrupted }) => if interrupted {
                None
            } else {
                Some(Err(Failure::Io { kind, syscall: Syscall::Pwrite }))
            },
            (Execution::Sync, Outcome::Failed { kind, .. }) => Some(
                Err(Failure::Io { kind, syscall: Syscall::Fsync }),
            ),
            (Execution::Truncate(_), Outcome::Failed { kind, .. }) => Some(
                Err(Failure::Io { kind, syscall: Syscall::Ftruncate }),
            ),
            (Execution::Read { .. }, _) => if outcome == Outcome::<K>::Moved(0) || done
                == self.goal() {
                Some(Ok(done as i32))
            } else {
                None
            },
            (Execution::Write { .. }, _) => if outcome == Outcome::<K>::Moved(0) {
                Some(Err(Failure::ShortWrite))
            } else if done == self.goal() {
                Some(Ok(done as i32))
            } else {
                None
            },
            (Execution::Sync, _) => Some(Ok(0)),
            (Execution::Truncate(_), _) => Some(Ok(0)),
        }
    }

    /// The execution after this outcome.
    pub open spec fn leads_to<K>(self, outcome: Outcome<K>, next: Execution) -> bool {
        &&& next.valid()
        &&& next.same_request(self)
        &&& next.done() == self.done_after(outcome)
    }

    /// After this outcome the execution goes on as `next`, with this step.
    pub open spec fn resumes<K>(self, outcome: Outcome<K>, next: Execution, step: Step<K>) -> bool {
        &&& self.leads_to(outcome, next)
        &&& match self.verdict(outcome) {
            Some(result) => step == Step::Finish(result),
            None => next.pending() && step == next.call::<K>(),
        }
    }

    /// The length of the file after this outcome.
    pub open spec fn size_after<K>(self, outcome: Outcome<K>, size: u64) -> int {
        match (self, outcome) {
            (Execution::Write { .. }, Outcome::Moved(bytes)) => {
                let end = self.origin() + self.done_after(outcome);
                if bytes > 0 && end > size {
                    end
                } else {
                    size as int
                }
            },
            (Execution::Truncate(length), Outcome::Completed) => length as int,
            _ => size as int,
        }
    }
}

/// An execution that has begun.
pub struct Started<W, K> {
    /// Its state.
    pub execution: Execution,
    /// The handles of the buffers that it writes, in order.
    pub buffers: Vec<W>,
    /// What is to be done first.
    pub first: Step<K>,
}

/// An operation begins as this execution, with this step.
pub open spec fn begins<W, K>(
    operation: Operation<W>,
    execution: Execution,
    first: Step<K>,
) -> bool {
    &&& execution.valid()
    &&& execution.done() == 0
    &&& match operation {
        Operation::Read { offset, length } => execution == (Execution::Read {
            offset,
            length,
            read: 0,
        }),
        Operation::Write { offset, lengths, .. } => {
            &&& execution is Write
            &&& execution.origin() == offset
            &&& execution.buffers() == lengths@
        },
        Operation::Sync => execution is Sync,
        Operation::Truncate(length) => execution == Execution::Truncate(length),
    }
    &&& first == if execution.pending() {
        execution.call::<K>()
    } else {
        Step::Finish(Ok(0))
    }
}

/// One more buffer adds its length to the total.
pub proof fn lemma_total_step(lengths: Seq<usize>, index: int)
    requires
        0 <= index < lengths.len(),
    ensures
        total(lengths.take(index + 1)) == total(lengths.take(index)) + lengths[index],
{
    assert(lengths.take(index + 1).drop_last() == lengths.take(index));
}

/// More buffers have no smaller total.
pub proof fn lemma_total_grows(lengths: Seq<usize>, fewer: int, more: int)
    requires
        0 <= fewer <= more <= lengths.len(),
    ensures
        0 <= total(lengths.take(fewer)) <= total(lengths.take(more)),
    decreases more,
{
    if fewer < more {
        lemma_total_step(lengths, more - 1);
        lemma_total_grows(lengths, fewer, more - 1);
    } else if fewer > 0 {
        lemma_total_step(lengths, fewer - 1);
        lemma_total_grows(lengths, fewer - 1, fewer - 1);
    }
}

/// A byte of some buffers has one position: what an execution has written so
/// far determines which byte of which buffer is written next.
pub proof fn law_position_is_unique(
    lengths: Seq<usize>,
    done: int,
    buffer: int,
    from: int,
    other_buffer: int,
    other_from: int,
)
    requires
        points_at(lengths, done, buffer, from),
        points_at(lengths, done, other_buffer, other_from),
    ensures
        buffer == other_buffer,
        from == other_from,
{
    if buffer < other_buffer {
        lemma_total_step(lengths, buffer);
        lemma_total_grows(lengths, buffer + 1, other_buffer);
    } else if other_buffer < buffer {
        lemma_total_step(lengths, other_buffer);
        lemma_total_grows(lengths, other_buffer + 1, buffer);
    }
}

/// Moves on to the first buffer, from an index on, that is not empty.
fn next_nonempty(lengths: &Vec<usize>, from: usize) -> (index: usize)
    requires
        from <= lengths@.len(),
    ensures
        from <= index <= lengths@.len(),
        index < lengths@.len() ==> lengths@[index as int] > 0,
        total(lengths@.take(index as int)) == total(lengths@.take(from as int)),
{
    let mut index: usize = from;
    while index < lengths.len() && lengths[index] == 0
        invariant
            from <= index <= lengths@.len(),
            total(lengths@.take(index as int)) == total(lengths@.take(from as int)),
        decreases lengths@.len() - index,
    {
        proof {
            lemma_total_step(lengths@, index as int);
        }
        index = index + 1;
    }
    index
}

impl Execution {
    /// Begins to execute an operation. An operation that moves no bytes though
    /// it could is finished at once.
    pub fn begin<W, K>(operation: Operation<W>) -> (started: Started<W, K>)
        requires
            operation.valid(),
        ensures
            started.execution.valid(),
            started.execution.done() == 0,
            match operation {
                Operation::Read { offset, length } => {
                    &&& started.execution == Execution::Read { offset, length, read: 0 }
                    &&& started.buffers@.len() == 0
                },
                Operation::Write { offset, buffers, lengths } => {
                    &&& started.execution is Write
                    &&& started.execution.origin() == offset
                    &&& started.execution.buffers() == lengths@
                    &&& started.buffers == buffers
                },
                Operation::Sync => started.execution is Sync && started.buffers@.len() == 0,
                Operation::Truncate(length) => {
                    &&& started.execution == Execution::Truncate(length)
                    &&& started.buffers@.len() == 0
                },
            },
            started.execution.pending() ==> started.first == started.execution.call::<K>(),
            !started.execution.pending() ==> started.first == Step::<K>::Finish(Ok(0)),
            begins(operation, started.execution, started.first),
    {
        match operation {
            Operation::Read { offset, length } => Started {
                execution: Execution::Read { offset, length, read: 0 },
                buffers: Vec::new(),
                first: if length == 0 {
                    Step::Finish(Ok(0))
                } else {
                    Step::Read { from: 0, offset }
                },
            },
            Operation::Write { offset, buffers, lengths } => {
                let index: usize = next_nonempty(&lengths, 0);
                proof {
                    assert(total(lengths@.take(0)) == 0);
                    assert(lengths@.take(lengths@.len() as int) == lengths@);
                    if index < lengths@.len() {
                        lemma_total_step(lengths@, index as int);
                        lemma_total_grows(lengths@, index + 1, lengths@.len() as int);
                    }
                }
                let first = if index == lengths.len() {
                    Step::Finish(Ok(0))
                } else {
                    Step::Write { buffer: index, from: 0, offset }
                };
                Started {
                    execution: Execution::Write {
                        start: offset,
                        offset,
                        lengths,
                        index,
                        written: 0,
                    },
                    buffers,
                    first,
                }
            },
            Operation::Sync => Started {
                execution: Execution::Sync,
                buffers: Vec::new(),
                first: Step::SyncAll,
            },
            Operation::Truncate(length) => Started {
                execution: Execution::Truncate(length),
                buffers: Vec::new(),
                first: Step::SetLength(length),
            },
        }
    }

    /// Takes in what the awaited call came to, and says what is next. The
    /// length of the file follows every byte that was written, also where the
    /// operation fails later on.
    pub fn resume<K>(&mut self, state: &mut FileState, outcome: Outcome<K>) -> (step: Step<K>)
        requires
            old(self).valid(),
            old(self).pending(),
            old(self).expects(outcome),
        ensures
            old(self).leads_to(outcome, *final(self)),
            match old(self).verdict(outcome) {
                Some(result) => step == Step::Finish(result),
                None => final(self).pending() && step == final(self).call::<K>(),
            },
            old(self).resumes(outcome, *final(self), step),
            final(state).size == old(self).size_after(outcome, old(state).size),
            final(state).path == old(state).path,
            final(state).id == old(state).id,
    {
        match self {
            Execution::Read { offset, length, read } => match outcome {
                Outcome::Moved(bytes) => {
                    *read = *read + bytes;
                    if bytes == 0 || *read == *length {
                        Step::Finish(Ok(*read as i32))
                    } else {
                        Step::Read { from: *read, offset: *offset + *read as u64 }
                    }
                },
                Outcome::Failed { kind, interrupted } => {
                    if interrupted {
                        Step::Read { from: *read, offset: *offset + *read as u64 }
                    } else {
                        Step::Finish(Err(Failure::Io { kind, syscall: Syscall::Pread }))
                    }
                },
                Outcome::Completed => Step::Finish(Ok(*read as i32)),
            },
            Execution::Write { start, offset, lengths, index, written } => match outcome {
                Outcome::Moved(bytes) => {
                    if bytes == 0 {
                        return Step::Finish(Err(Failure::ShortWrite));
                    }
                    proof {
                        lemma_total_step(lengths@, *index as int);
                        lemma_total_grows(lengths@, *index + 1, lengths@.len() as int);
                        assert(lengths@.take(lengths@.len() as int) == lengths@);
                    }
                    let count: usize = lengths.len();
                    *written = *written + bytes;
                    *offset = *offset + bytes as u64;
                    if *offset > state.size {
                        state.size = *offset;
                    }
                    if *written == lengths[*index] {
                        let next: usize = next_nonempty(lengths, *index + 1);
                        *index = next;
                        *written = 0;
                        proof {
                            if next < lengths@.len() {
                                lemma_total_step(lengths@, next as int);
                                lemma_total_grows(lengths@, next + 1, lengths@.len() as int);
                            }
                        }
                    }
                    if *index == count {
                        Step::Finish(Ok((*offset - *start) as i32))
                    } else {
                        Step::Write { buffer: *index, from: *written, offset: *offset }
                    }
                },
                Outcome::Failed { kind, interrupted } => {
                    if interrupted {
                        Step::Write { buffer: *index, from: *written, offset: *offset }
                    } else {
                        Step::Finish(Err(Failure::Io { kind, syscall: Syscall::Pwrite }))
                    }
                },
                Outcome::Completed => Step::Finish(Ok(0)),
            },
            Execution::Sync => match outcome {
                Outcome::Failed { kind, .. } => Step::Finish(
                    Err(Failure::Io { kind, syscall: Syscall::Fsync }),
                ),
                _ => Step::Finish(Ok(0)),
            },
            Execution::Truncate(length) => match outcome {
                Outcome::Failed { kind, .. } => Step::Finish(
                    Err(Failure::Io { kind, syscall: Syscall::Ftruncate }),
                ),
                _ => {
                    state.size = *length;
                    Step::Finish(Ok(0))
                },
            },
        }
    }
}

} // verus!
