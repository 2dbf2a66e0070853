//! What operations come to, over the whole of an execution.
//!
//! The content of a file is modelled as a sequence of bytes, and each step that
//! an execution hands out as what it does to that sequence. The laws here speak
//! of the operation that was requested, the steps that were handed out, what
//! they came to and what it made of the file, through any number of partial
//! transfers and interruptions.

use vstd::prelude::*;

use crate::bridge::{total, Operation, MAX_COMPLETION, MAX_OFFSET};
use crate::execution::{
    begins, lemma_total_grows, lemma_total_step, points_at, Execution, Failure, Outcome, Step, Syscall,
};
use crate::staging::{resized, zero_filled};

verus! {

/// An execution from its beginning. It stands at `states[i]` when it hands out
/// `steps[i]`, which came to `outcomes[i]`.
pub struct Run<W, K> {
    /// The operation that is executed.
    pub operation: Operation<W>,
    /// Where the execution stands at each step.
    pub states: Seq<Execution>,
    /// What it asks for.
    pub steps: Seq<Step<K>>,
    /// What each step came to.
    pub outcomes: Seq<Outcome<K>>,
}

/// A step can come to this: a transfer moves no more bytes than there are from
/// its position to the end of the buffer, and any call can fail.
pub open spec fn can_come_to<W, K>(
    operation: Operation<W>,
    step: Step<K>,
    outcome: Outcome<K>,
) -> bool {
    match (step, outcome) {
        (Step::Finish(_), _) => false,
        (_, Outcome::Failed { .. }) => true,
        (Step::Read { from, .. }, Outcome::Moved(bytes)) => match operation {
            Operation::Read { length, .. } => from + bytes <= length,
            _ => false,
        },
        (Step::Write { buffer, from, .. }, Outcome::Moved(bytes)) => match operation {
            Operation::Write { lengths, .. } => from + bytes <= lengths@[buffer as int],
            _ => false,
        },
        (Step::SyncAll, Outcome::Completed) => true,
        (Step::SetLength(_), Outcome::Completed) => true,
        _ => false,
    }
}

/// How many bytes some outcomes moved.
pub open spec fn moved_bytes<K>(outcomes: Seq<Outcome<K>>) -> int
    decreases outcomes.len(),
{
    if outcomes.len() == 0 {
        0
    } else {
        moved_bytes(outcomes.drop_last()) + match outcomes.last() {
            Outcome::Moved(bytes) => bytes as int,
            _ => 0,
        }
    }
}

impl<W, K> Run<W, K> {
    /// The execution of an admitted operation began, and was resumed with what
    /// each step came to.
    pub open spec fn valid(self) -> bool {
        &&& self.operation.valid()
        &&& self.states.len() == self.outcomes.len() + 1
        &&& self.steps.len() == self.outcomes.len() + 1
        &&& begins(self.operation, self.states[0], self.steps[0])
        &&& forall|i: int| #![trigger self.outcomes[i]]
            0 <= i < self.outcomes.len() ==> {
                &&& can_come_to(self.operation, self.steps[i], self.outcomes[i])
                &&& self.states[i].resumes(
                    self.outcomes[i],
                    self.states[i + 1],
                    self.steps[i + 1],
                )
            }
    }

    /// The same run before its last call.
    pub open spec fn before_last(self) -> Run<W, K> {
        Run {
            operation: self.operation,
            states: self.states.drop_last(),
            steps: self.steps.drop_last(),
            outcomes: self.outcomes.drop_last(),
        }
    }

    /// How many bytes had been moved when a step was handed out.
    pub open spec fn progress(self, index: int) -> int {
        moved_bytes(self.outcomes.take(index))
    }

    /// The result, if the execution has one.
    pub open spec fn result(self) -> Option<Result<i32, Failure<K>>> {
        match self.steps.last() {
            Step::Finish(result) => Some(result),
            _ => None,
        }
    }
}

/// A run without its last call is a run.
proof fn lemma_before_last<W, K>(run: Run<W, K>)
    requires
        run.valid(),
        run.outcomes.len() > 0,
    ensures
        run.before_last().valid(),
        run.before_last().result() is None,
{
    let shorter = run.before_last();
    assert forall|i: int| #![trigger shorter.outcomes[i]]
        0 <= i < shorter.outcomes.len() implies {
        &&& can_come_to(shorter.operation, shorter.steps[i], shorter.outcomes[i])
        &&& shorter.states[i].resumes(
            shorter.outcomes[i],
            shorter.states[i + 1],
            shorter.steps[i + 1],
        )
    } by {
        assert(shorter.outcomes[i] == run.outcomes[i]);
    }
    assert(run.outcomes[run.outcomes.len() - 1] == run.outcomes.last());
}

/// At every point of a run, the execution stands where the outcomes so far have
/// brought it, and the step is the call that it makes there.
proof fn lemma_state_in_run<W, K>(run: Run<W, K>, index: int)
    requires
        run.valid(),
        0 <= index < run.states.len(),
    ensures
        run.states[index].valid(),
        run.states[index].same_request(run.states[0]),
        run.states[index].done() == run.progress(index),
        !(run.steps[index] is Finish) ==> {
            &&& run.states[index].pending()
            &&& run.steps[index] == run.states[index].call::<K>()
        },
    decreases index,
{
    if index > 0 {
        lemma_state_in_run(run, index - 1);
        assert(can_come_to(run.operation, run.steps[index - 1], run.outcomes[index - 1]));
        assert(run.outcomes.take(index).drop_last() =~= run.outcomes.take(index - 1));
        assert(run.outcomes.take(index).last() == run.outcomes[index - 1]);
    } else {
        assert(run.outcomes.take(0).len() == 0);
    }
}

/// Whatever a step can come to, the execution can be resumed with it.
pub proof fn law_every_outcome_is_expected<W, K>(run: Run<W, K>, index: int, outcome: Outcome<K>)
    requires
        run.valid(),
        0 <= index < run.steps.len(),
        can_come_to(run.operation, run.steps[index], outcome),
    ensures
        run.states[index].valid(),
        run.states[index].pending(),
        run.states[index].expects(outcome),
{
    lemma_state_in_run(run, index);
}

/// Each step goes on with the request exactly where the steps before left off.
/// A read asks for the next bytes of the file, for the next place in the staging
/// buffer. A write asks for the next byte of the buffers to be written behind
/// the last one that was. A barrier and a truncation ask for one call.
pub proof fn law_step_goes_on_with_request<W, K>(run: Run<W, K>, index: int)
    requires
        run.valid(),
        0 <= index < run.steps.len(),
    ensures
        ({
            let done = run.progress(index);
            run.steps[index] is Finish || match run.operation {
                Operation::Read { offset, length } => {
                    &&& run.steps[index] matches Step::Read { from, offset: at }
                    &&& from == done
                    &&& at == offset + done
                    &&& 0 <= done < length
                },
                Operation::Write { offset, lengths, .. } => {
                    &&& run.steps[index] matches Step::Write { buffer, from, offset: at }
                    &&& at == offset + done
                    &&& buffer < lengths@.len()
                    &&& from < lengths@[buffer as int]
                    &&& total(lengths@.take(buffer as int)) + from == done
                },
                Operation::Sync => index == 0 && run.steps[index] is SyncAll,
                Operation::Truncate(length) => index == 0 && run.steps[index]
                    == Step::<K>::SetLength(length),
            }
        }),
{
    lemma_state_in_run(run, index);
    if index > 0 {
        lemma_state_in_run(run, index - 1);
        assert(can_come_to(run.operation, run.steps[index - 1], run.outcomes[index - 1]));
    }
}

/// An operation for which there is nothing to move is finished at once, and no
/// other is.
pub proof fn law_empty_operation_finishes_at_once<W, K>(run: Run<W, K>)
    requires
        run.valid(),
    ensures
        run.steps[0] is Finish <==> match run.operation {
            Operation::Read { length, .. } => length == 0,
            Operation::Write { lengths, .. } => total(lengths@) == 0,
            _ => false,
        },
        run.steps[0] is Finish ==> run.steps[0] == Step::<K>::Finish(Ok(0)),
{
    lemma_state_in_run(run, 0);
}

/// When an execution ends, and with which result. A read ends when everything
/// has arrived or at the end of the file, and reports what arrived. A write ends
/// when everything is written, and fails where a call makes no progress. Both go
/// on after an interruption and fail with any other error, under the name of the
/// call. A barrier and a truncation end with their one call.
pub proof fn law_result_of_last_call<W, K>(run: Run<W, K>, index: int)
    requires
        run.valid(),
        0 < index < run.steps.len(),
    ensures
        ({
            let step = run.steps[index];
            let done = run.progress(index);
            match (run.operation, run.outcomes[index - 1]) {
                (Operation::Read { .. }, Outcome::Failed { kind, interrupted }) => if interrupted {
                    !(step is Finish)
                } else {
                    step == Step::Finish(Err(Failure::Io { kind, syscall: Syscall::Pread }))
                },
                (Operation::Write { .. }, Outcome::Failed { kind, interrupted }) => if interrupted {
                    !(step is Finish)
                } else {
                    step == Step::Finish(Err(Failure::Io { kind, syscall: Syscall::Pwrite }))
                },
                (Operation::Sync, Outcome::Failed { kind, .. }) => step == Step::Finish(
                    Err(Failure::Io { kind, syscall: Syscall::Fsync }),
                ),
                (Operation::Truncate(_), Outcome::Failed { kind, .. }) => step == Step::Finish(
                    Err(Failure::Io { kind, syscall: Syscall::Ftruncate }),
                ),
                (Operation::Read { length, .. }, Outcome::Moved(bytes)) => if bytes == 0 || done
                    == length {
                    step matches Step::Finish(Ok(count)) && count == done
                } else {
                    !(step is Finish)
                },
                (Operation::Write { lengths, .. }, Outcome::Moved(bytes)) => if bytes == 0 {
                    step == Step::<K>::Finish(Err(Failure::ShortWrite))
                } else if done == total(lengths@) {
                    step matches Step::Finish(Ok(count)) && count == done
                } else {
                    !(step is Finish)
                },
                (Operation::Sync, Outcome::Completed) => step == Step::<K>::Finish(Ok(0)),
                (Operation::Truncate(_), Outcome::Completed) => step == Step::<K>::Finish(Ok(0)),
                _ => false,
            }
        }),
{
    lemma_state_in_run(run, index);
    lemma_state_in_run(run, index - 1);
    assert(can_come_to(run.operation, run.steps[index - 1], run.outcomes[index - 1]));
}

/// An execution stays with its request, and stays within the range that was
/// checked for it: every call ends at a representable offset, and every count
/// can be reported.
pub proof fn law_run_stays_in_range<W, K>(run: Run<W, K>)
    requires
        run.valid(),
    ensures
        run.states.last().valid(),
        run.states.last().same_request(run.states[0]),
        0 <= run.states.last().done() <= run.states.last().goal(),
        run.states.last().goal() <= MAX_COMPLETION,
        run.states.last().origin() + run.states.last().goal() <= MAX_OFFSET,
        run.states.last().done() == moved_bytes(run.outcomes),
{
    lemma_state_in_run(run, run.states.len() - 1);
    assert(run.outcomes.take(run.outcomes.len() as int) =~= run.outcomes);
}

/// The bytes of some buffers, back to back.
pub open spec fn joined(buffers: Seq<Seq<u8>>) -> Seq<u8>
    decreases buffers.len(),
{
    if buffers.len() == 0 {
        Seq::empty()
    } else {
        joined(buffers.drop_last()) + buffers.last()
    }
}

/// The buffers have the given lengths.
pub open spec fn have_lengths(buffers: Seq<Seq<u8>>, lengths: Seq<usize>) -> bool {
    &&& buffers.len() == lengths.len()
    &&& forall|i: int| 0 <= i < lengths.len() ==> (#[trigger] buffers[i]).len() == lengths[i]
}

/// The content of a file after bytes are written at an offset. What lies
/// between the old end and the offset reads as zeros.
pub open spec fn overwritten(content: Seq<u8>, offset: int, bytes: Seq<u8>) -> Seq<u8> {
    if bytes.len() == 0 {
        content
    } else {
        let end = offset + bytes.len();
        Seq::new(
            if content.len() > end {
                content.len()
            } else {
                end as nat
            },
            |i: int|
                if offset <= i < end {
                    bytes[i - offset]
                } else if i < content.len() {
                    content[i]
                } else {
                    0
                },
        )
    }
}

/// So many bytes of a file from an offset on. What lies behind the end of the
/// file reads as zeros.
pub open spec fn content_at(content: Seq<u8>, offset: int, length: nat) -> Seq<u8> {
    Seq::new(
        length,
        |i: int|
            if offset + i < content.len() {
                content[offset + i]
            } else {
                0
            },
    )
}

/// How many bytes of a file lie in a range.
pub open spec fn available(content: Seq<u8>, offset: int, length: int) -> int {
    if content.len() <= offset {
        0
    } else if content.len() - offset < length {
        content.len() - offset
    } else {
        length
    }
}

/// The bytes that a step of a write moves, if it moves so many.
pub open spec fn moved<K>(step: Step<K>, outcome: Outcome<K>, buffers: Seq<Seq<u8>>) -> Seq<u8> {
    match (step, outcome) {
        (Step::Write { buffer, from, .. }, Outcome::Moved(bytes)) => buffers[buffer as int].subrange(
            from as int,
            from + bytes,
        ),
        _ => Seq::empty(),
    }
}

/// The content of a file after a step came to this.
pub open spec fn content_after<K>(
    step: Step<K>,
    outcome: Outcome<K>,
    buffers: Seq<Seq<u8>>,
    content: Seq<u8>,
) -> Seq<u8> {
    match (step, outcome) {
        (Step::Write { offset, .. }, Outcome::Moved(_)) => overwritten(
            content,
            offset as int,
            moved(step, outcome, buffers),
        ),
        (Step::SetLength(length), Outcome::Completed) => resized(content, length as nat),
        _ => content,
    }
}

/// The file has this content before and after each step of an execution. The
/// buffers are those of a write, and do not matter otherwise.
pub open spec fn executes<W, K>(
    run: Run<W, K>,
    buffers: Seq<Seq<u8>>,
    contents: Seq<Seq<u8>>,
) -> bool {
    &&& run.valid()
    &&& run.operation matches Operation::Write { lengths, .. } ==> have_lengths(buffers, lengths@)
    &&& contents.len() == run.steps.len()
    &&& forall|i: int| #![trigger run.outcomes[i]]
        0 <= i < run.outcomes.len() ==> contents[i + 1] == content_after(
            run.steps[i],
            run.outcomes[i],
            buffers,
            contents[i],
        )
}

/// The file has this content before and after each step of a write that starts
/// at this offset.
pub open spec fn writes<W, K>(
    run: Run<W, K>,
    start: u64,
    buffers: Seq<Seq<u8>>,
    contents: Seq<Seq<u8>>,
) -> bool {
    &&& executes(run, buffers, contents)
    &&& run.operation matches Operation::Write { offset, .. }
    &&& offset == start
}

/// The length that the adapter keeps for the file before and after each call.
pub open spec fn tracks<W, K>(run: Run<W, K>, sizes: Seq<u64>) -> bool {
    &&& sizes.len() == run.states.len()
    &&& forall|i: int| #![trigger run.outcomes[i]]
        0 <= i < run.outcomes.len() ==> sizes[i + 1] == run.states[i].size_after(
            run.outcomes[i],
            sizes[i],
        )
}

/// An execution without its last call executes up to there.
proof fn lemma_executes_before_last<W, K>(
    run: Run<W, K>,
    buffers: Seq<Seq<u8>>,
    contents: Seq<Seq<u8>>,
)
    requires
        executes(run, buffers, contents),
        run.outcomes.len() > 0,
    ensures
        executes(run.before_last(), buffers, contents.drop_last()),
{
    let shorter = run.before_last();
    let earlier = contents.drop_last();
    lemma_before_last(run);
    assert forall|i: int| #![trigger shorter.outcomes[i]]
        0 <= i < shorter.outcomes.len() implies earlier[i + 1] == content_after(
        shorter.steps[i],
        shorter.outcomes[i],
        buffers,
        earlier[i],
    ) by {
        assert(shorter.outcomes[i] == run.outcomes[i]);
    }
}

/// The bytes of buffers with given lengths add up to the total of the lengths.
proof fn lemma_joined_length(buffers: Seq<Seq<u8>>, lengths: Seq<usize>)
    requires
        have_lengths(buffers, lengths),
    ensures
        joined(buffers).len() == total(lengths),
    decreases buffers.len(),
{
    if buffers.len() > 0 {
        let shorter = buffers.drop_last();
        assert forall|i: int| 0 <= i < lengths.drop_last().len() implies (
        #[trigger] shorter[i]).len() == lengths.drop_last()[i] by {
            assert(shorter[i] == buffers[i]);
        }
        lemma_joined_length(shorter, lengths.drop_last());
        assert(buffers[buffers.len() - 1].len() == lengths.last());
    }
}

/// Part of one buffer is part of the joined bytes.
proof fn lemma_joined_part(
    buffers: Seq<Seq<u8>>,
    lengths: Seq<usize>,
    done: int,
    index: int,
    from: int,
    count: int,
)
    requires
        have_lengths(buffers, lengths),
        points_at(lengths, done, index, from),
        0 <= count <= lengths[index] - from,
    ensures
        0 <= done,
        done + count <= joined(buffers).len(),
        joined(buffers).subrange(done, done + count) == buffers[index].subrange(
            from,
            from + count,
        ),
    decreases buffers.len(),
{
    let last = buffers.len() - 1;
    let shorter = buffers.drop_last();
    let fewer = lengths.drop_last();
    assert forall|i: int| 0 <= i < fewer.len() implies (#[trigger] shorter[i]).len()
        == fewer[i] by {
        assert(shorter[i] == buffers[i]);
    }
    lemma_joined_length(shorter, fewer);
    lemma_joined_length(buffers, lengths);
    lemma_total_grows(lengths, 0, index);
    assert(lengths.take(0) =~= Seq::empty());
    assert(buffers[index].len() == lengths[index]);
    if index == last {
        assert(lengths.take(index) =~= fewer);
        assert(joined(buffers).subrange(done, done + count) =~= buffers[index].subrange(
            from,
            from + count,
        ));
    } else {
        assert(fewer.take(index) =~= lengths.take(index));
        assert(shorter[index] == buffers[index]);
        lemma_joined_part(shorter, fewer, done, index, from, count);
        assert(joined(buffers).subrange(done, done + count) =~= joined(shorter).subrange(
            done,
            done + count,
        ));
    }
}

/// Writing twice, the second time where the first ended, is writing once.
proof fn lemma_overwritten_twice(content: Seq<u8>, offset: int, first: Seq<u8>, second: Seq<u8>)
    requires
        offset >= 0,
    ensures
        overwritten(overwritten(content, offset, first), offset + first.len(), second)
            == overwritten(content, offset, first + second),
{
    assert(overwritten(overwritten(content, offset, first), offset + first.len(), second)
        =~= overwritten(content, offset, first + second));
}

/// However many calls it takes, a write has written the first bytes of its
/// buffers back to back where it was to start, as many as were moved, and nothing
/// else. This holds at every point, so also where a later call fails.
pub proof fn law_write_writes_prefix<W, K>(
    run: Run<W, K>,
    start: u64,
    buffers: Seq<Seq<u8>>,
    contents: Seq<Seq<u8>>,
)
    requires
        writes(run, start, buffers, contents),
    ensures
        0 <= moved_bytes(run.outcomes) <= joined(buffers).len(),
        contents.last() == overwritten(
            contents[0],
            start as int,
            joined(buffers).take(moved_bytes(run.outcomes)),
        ),
    decreases run.outcomes.len(),
{
    let lengths = run.operation->Write_lengths@;
    let bytes = joined(buffers);
    law_run_stays_in_range(run);
    lemma_joined_length(buffers, lengths);
    if run.outcomes.len() == 0 {
        assert(bytes.take(0) =~= Seq::empty());
    } else {
        let last = run.outcomes.len() - 1;
        let shorter = run.before_last();
        let earlier = contents.drop_last();
        lemma_executes_before_last(run, buffers, contents);
        law_write_writes_prefix(shorter, start, buffers, earlier);
        law_step_goes_on_with_request(run, last);
        assert(run.outcomes.take(last) =~= shorter.outcomes);
        assert(run.outcomes[last] == run.outcomes.last());
        let step = run.steps[last];
        let outcome = run.outcomes[last];
        let done = moved_bytes(shorter.outcomes);
        let piece = moved(step, outcome, buffers);
        assert(can_come_to(run.operation, step, outcome));
        match (step, outcome) {
            (Step::Write { buffer, from, .. }, Outcome::Moved(count)) => {
                lemma_joined_part(
                    buffers,
                    lengths,
                    done,
                    buffer as int,
                    from as int,
                    count as int,
                );
                assert(piece.len() == count);
                assert(bytes.take(done) + piece =~= bytes.take(done + count));
                lemma_overwritten_twice(contents[0], start as int, bytes.take(done), piece);
            },
            _ => {},
        }
    }
}

/// A write reports success exactly when everything has been written, and then
/// reports the number of bytes.
pub proof fn law_write_success_is_complete<W, K>(
    run: Run<W, K>,
    start: u64,
    buffers: Seq<Seq<u8>>,
    contents: Seq<Seq<u8>>,
)
    requires
        writes(run, start, buffers, contents),
    ensures
        run.result() matches Some(Ok(count)) ==> {
            &&& count == joined(buffers).len()
            &&& contents.last() == overwritten(contents[0], start as int, joined(buffers))
        },
        run.result() matches Some(Err(_)) ==> moved_bytes(run.outcomes) < joined(buffers).len(),
        moved_bytes(run.outcomes) == joined(buffers).len() ==> run.result() matches Some(Ok(_)),
        joined(buffers).len() <= MAX_COMPLETION,
{
    let lengths = run.operation->Write_lengths@;
    law_write_writes_prefix(run, start, buffers, contents);
    law_run_stays_in_range(run);
    lemma_joined_length(buffers, lengths);
    assert(joined(buffers).take(joined(buffers).len() as int) =~= joined(buffers));
    let last = run.outcomes.len() as int;
    assert(run.outcomes.take(last) =~= run.outcomes);
    if last > 0 {
        law_result_of_last_call(run, last);
        lemma_before_last(run);
        law_run_stays_in_range(run.before_last());
        law_step_goes_on_with_request(run, last - 1);
        lemma_total_grows(
            lengths,
            run.steps[last - 1]->Write_buffer + 1,
            lengths.len() as int,
        );
        lemma_total_step(lengths, run.steps[last - 1]->Write_buffer as int);
        assert(lengths.take(lengths.len() as int) =~= lengths);
        assert(run.outcomes[last - 1] == run.outcomes.last());
        assert(run.outcomes.take(last - 1) =~= run.before_last().outcomes);
    } else {
        law_empty_operation_finishes_at_once(run);
    }
}

/// The length that the adapter keeps for a file follows the file: where it was
/// right before an operation, it is right after each call of the operation,
/// whatever the operation is and however it ends.
pub proof fn law_size_follows_content<W, K>(
    run: Run<W, K>,
    buffers: Seq<Seq<u8>>,
    contents: Seq<Seq<u8>>,
    sizes: Seq<u64>,
    index: int,
)
    requires
        executes(run, buffers, contents),
        tracks(run, sizes),
        sizes[0] == contents[0].len(),
        0 <= index < sizes.len(),
    ensures
        sizes[index] == contents[index].len(),
    decreases index,
{
    if index > 0 {
        let last = index - 1;
        law_size_follows_content(run, buffers, contents, sizes, last);
        lemma_state_in_run(run, last);
        law_step_goes_on_with_request(run, last);
        assert(can_come_to(run.operation, run.steps[last], run.outcomes[last]));
        match (run.steps[last], run.outcomes[last]) {
            (Step::Write { buffer, .. }, Outcome::Moved(_)) => {
                let lengths = run.operation->Write_lengths@;
                assert(buffers[buffer as int].len() == lengths[buffer as int]);
            },
            _ => {},
        }
    }
}

/// A truncation that succeeds leaves the file with the requested length: what
/// lies before that stays, and what is added reads as zeros. One that fails
/// leaves the file as it was, and so do a barrier and a read.
pub proof fn law_only_writes_and_truncations_change_content<W, K>(
    run: Run<W, K>,
    buffers: Seq<Seq<u8>>,
    contents: Seq<Seq<u8>>,
)
    requires
        executes(run, buffers, contents),
    ensures
        run.operation is Read || run.operation is Sync ==> contents.last() == contents[0],
        run.operation matches Operation::Truncate(length) ==> match run.result() {
            Some(Ok(count)) => {
                &&& count == 0
                &&& contents.last().len() == length
                &&& forall|i: int|
                    0 <= i < length ==> #[trigger] contents.last()[i] == if i
                        < contents[0].len() {
                        contents[0][i]
                    } else {
                        0
                    }
            },
            _ => contents.last() == contents[0],
        },
    decreases run.outcomes.len(),
{
    if run.outcomes.len() > 0 {
        let last = run.outcomes.len() - 1;
        lemma_executes_before_last(run, buffers, contents);
        lemma_before_last(run);
        law_only_writes_and_truncations_change_content(
            run.before_last(),
            buffers,
            contents.drop_last(),
        );
        law_step_goes_on_with_request(run, last);
        law_result_of_last_call(run, last + 1);
        assert(can_come_to(run.operation, run.steps[last], run.outcomes[last]));
    } else {
        law_empty_operation_finishes_at_once(run);
    }
}

/// A step of a read delivers the bytes of the file from its offset, into the
/// staging buffer from its position. It delivers none only at the end of the
/// file. One that fails leaves what was delivered before.
pub open spec fn read_call<K>(
    step: Step<K>,
    outcome: Outcome<K>,
    content: Seq<u8>,
    before: Seq<u8>,
    after: Seq<u8>,
) -> bool {
    &&& after.len() == before.len()
    &&& match (step, outcome) {
        (Step::Read { from, offset }, Outcome::Moved(bytes)) => {
            &&& bytes > 0 ==> offset + bytes <= content.len()
            &&& bytes == 0 ==> content.len() <= offset
            &&& forall|i: int|
                0 <= i < before.len() ==> #[trigger] after[i] == if from <= i < from + bytes {
                    content[offset + (i - from)]
                } else {
                    before[i]
                }
        },
        (Step::Read { from, .. }, _) => forall|i: int|
            0 <= i < before.len() && i < from ==> #[trigger] after[i] == before[i],
        _ => after == before,
    }
}

/// The staging buffer of a read from this offset, of so many bytes, holds these
/// bytes before and after each step, while the file has the given content.
pub open spec fn reads<W, K>(
    run: Run<W, K>,
    start: u64,
    count: usize,
    content: Seq<u8>,
    buffers: Seq<Seq<u8>>,
) -> bool {
    &&& run.valid()
    &&& run.operation == (Operation::<W>::Read { offset: start, length: count })
    &&& buffers.len() == run.steps.len()
    &&& buffers[0].len() == count
    &&& forall|i: int| #![trigger run.outcomes[i]]
        0 <= i < run.outcomes.len() ==> read_call(
            run.steps[i],
            run.outcomes[i],
            content,
            buffers[i],
            buffers[i + 1],
        )
}

/// At every point of a read, the bytes that it has moved are the bytes of the
/// file.
pub proof fn law_read_reads_prefix<W, K>(
    run: Run<W, K>,
    start: u64,
    count: usize,
    content: Seq<u8>,
    buffers: Seq<Seq<u8>>,
)
    requires
        reads(run, start, count, content, buffers),
    ensures
        ({
            let done = moved_bytes(run.outcomes);
            &&& buffers.last().len() == count
            &&& 0 <= done <= count
            &&& done > 0 ==> start + done <= content.len()
            &&& forall|i: int| 0 <= i < done ==> #[trigger] buffers.last()[i] == content[start + i]
        }),
    decreases run.outcomes.len(),
{
    law_run_stays_in_range(run);
    if run.outcomes.len() > 0 {
        let last = run.outcomes.len() - 1;
        let shorter = run.before_last();
        let earlier = buffers.drop_last();
        lemma_before_last(run);
        assert forall|i: int| #![trigger shorter.outcomes[i]]
            0 <= i < shorter.outcomes.len() implies read_call(
            shorter.steps[i],
            shorter.outcomes[i],
            content,
            earlier[i],
            earlier[i + 1],
        ) by {
            assert(shorter.outcomes[i] == run.outcomes[i]);
        }
        law_read_reads_prefix(shorter, start, count, content, earlier);
        law_step_goes_on_with_request(run, last);
        assert(run.outcomes.take(last) =~= shorter.outcomes);
        assert(run.outcomes[last] == run.outcomes.last());
        assert(can_come_to(run.operation, run.steps[last], run.outcomes[last]));
    }
}

/// However many calls it takes, a read that succeeds reports how many bytes of
/// its range the file has, and what is delivered is the file's content, with
/// zeros behind its end. What an earlier read left in the staging buffer is
/// never delivered.
pub proof fn law_read_delivers_content<W, K>(
    run: Run<W, K>,
    start: u64,
    count: usize,
    content: Seq<u8>,
    buffers: Seq<Seq<u8>>,
)
    requires
        reads(run, start, count, content, buffers),
    ensures
        run.result() matches Some(Ok(read)) ==> {
            &&& read == available(content, start as int, count as int)
            &&& 0 <= read <= MAX_COMPLETION
            &&& zero_filled(buffers.last(), read as nat) == content_at(
                content,
                start as int,
                count as nat,
            )
        },
        moved_bytes(run.outcomes) == count ==> run.result() matches Some(Ok(_)),
{
    law_run_stays_in_range(run);
    law_read_reads_prefix(run, start, count, content, buffers);
    let last = run.outcomes.len() as int;
    assert(run.outcomes.take(last) =~= run.outcomes);
    if last > 0 {
        law_result_of_last_call(run, last);
        law_step_goes_on_with_request(run, last - 1);
        lemma_before_last(run);
        assert(run.outcomes[last - 1] == run.outcomes.last());
        assert(run.outcomes.take(last - 1) =~= run.before_last().outcomes);
        assert(read_call(
            run.steps[last - 1],
            run.outcomes[last - 1],
            content,
            buffers[last - 1],
            buffers[last],
        ));
    } else {
        law_empty_operation_finishes_at_once(run);
    }
    match run.result() {
        Some(Ok(read)) => {
            assert(zero_filled(buffers.last(), read as nat) =~= content_at(
                content,
                start as int,
                count as nat,
            ));
        },
        _ => {},
    }
}

/// A read gives back what a write wrote: the range that was written reads as
/// the bytes of the write's buffers.
pub proof fn law_read_gives_back_write(content: Seq<u8>, offset: int, bytes: Seq<u8>)
    requires
        offset >= 0,
    ensures
        content_at(overwritten(content, offset, bytes), offset, bytes.len()) == bytes,
        available(overwritten(content, offset, bytes), offset, bytes.len() as int) == bytes.len(),
{
    assert(content_at(overwritten(content, offset, bytes), offset, bytes.len()) =~= bytes);
}

/// A write changes nothing outside its range: any range that it does not touch
/// reads as before.
pub proof fn law_write_leaves_rest(
    content: Seq<u8>,
    offset: int,
    bytes: Seq<u8>,
    other: int,
    length: nat,
)
    requires
        offset >= 0,
        other >= 0,
        other + length <= offset || offset + bytes.len() <= other,
    ensures
        content_at(overwritten(content, offset, bytes), other, length) == content_at(
            content,
            other,
            length,
        ),
{
    assert(content_at(overwritten(content, offset, bytes), other, length) =~= content_at(
        content,
        other,
        length,
    ));
}

} // verus!
