//! In what order operations are executed, told and closed.

use vstd::prelude::*;

use crate::bridge::{all_sound, Job};
use crate::driver::{awaits, transition, DriverAction, DriverEvent, DriverState, Status};
use crate::execution::Failure;

verus! {

/// What happens to the jobs of a queue.
pub enum QueueEvent<C, W> {
    /// A job is put at the end.
    Enqueued(Job<C, W>),
    /// The oldest job is taken off, where there is one.
    Popped,
}

/// The jobs that some events put into a queue.
pub open spec fn enqueued<C, W>(events: Seq<QueueEvent<C, W>>) -> Seq<Job<C, W>>
    decreases events.len(),
{
    if events.len() == 0 {
        Seq::empty()
    } else {
        match events.last() {
            QueueEvent::Enqueued(job) => enqueued(events.drop_last()).push(job),
            QueueEvent::Popped => enqueued(events.drop_last()),
        }
    }
}

/// The jobs that are left in a queue after some events.
pub open spec fn waiting<C, W>(
    jobs: Seq<Job<C, W>>,
    events: Seq<QueueEvent<C, W>>,
) -> Seq<Job<C, W>>
    decreases events.len(),
{
    if events.len() == 0 {
        jobs
    } else {
        let before = waiting(jobs, events.drop_last());
        match events.last() {
            QueueEvent::Enqueued(job) => before.push(job),
            QueueEvent::Popped => if before.len() == 0 {
                before
            } else {
                before.drop_first()
            },
        }
    }
}

/// The jobs that some events took off a queue, in the order in which they were
/// taken.
pub open spec fn popped<C, W>(
    jobs: Seq<Job<C, W>>,
    events: Seq<QueueEvent<C, W>>,
) -> Seq<Job<C, W>>
    decreases events.len(),
{
    if events.len() == 0 {
        Seq::empty()
    } else {
        let before = waiting(jobs, events.drop_last());
        let taken = popped(jobs, events.drop_last());
        if events.last() is Popped && before.len() > 0 {
            taken.push(before.first())
        } else {
            taken
        }
    }
}

/// The queue is first in, first out: whatever happens to it, the jobs that were
/// taken off, followed by those that still wait, are the jobs that were put in,
/// in order. None is lost and none is taken twice.
pub proof fn law_queue_is_fifo<C, W>(jobs: Seq<Job<C, W>>, events: Seq<QueueEvent<C, W>>)
    ensures
        popped(jobs, events) + waiting(jobs, events) == jobs + enqueued(events),
    decreases events.len(),
{
    if events.len() > 0 {
        let earlier = events.drop_last();
        law_queue_is_fifo(jobs, earlier);
        let before = waiting(jobs, earlier);
        let taken = popped(jobs, earlier);
        match events.last() {
            QueueEvent::Enqueued(job) => {
                assert(taken + before.push(job) =~= (taken + before).push(job));
                assert(jobs + enqueued(earlier).push(job) =~= (jobs + enqueued(earlier)).push(job));
            },
            QueueEvent::Popped => {
                if before.len() > 0 {
                    assert(taken.push(before.first()) + before.drop_first() =~= taken + before);
                }
            },
        }
    } else {
        assert(popped(jobs, events) + waiting(jobs, events) =~= jobs + enqueued(events));
    }
}

/// Where only sound jobs are put into a queue, only sound jobs wait in it and
/// only sound jobs are taken off it. So every operation that the driver begins
/// to execute is within the range that was checked when it was admitted, and
/// every read that it stages is paid for.
pub proof fn law_queue_keeps_jobs_sound<C, W>(
    jobs: Seq<Job<C, W>>,
    events: Seq<QueueEvent<C, W>>,
)
    requires
        all_sound(jobs),
        all_sound(enqueued(events)),
    ensures
        all_sound(popped(jobs, events)),
        all_sound(waiting(jobs, events)),
{
    let taken = popped(jobs, events);
    let left = waiting(jobs, events);
    let given = jobs + enqueued(events);
    law_queue_is_fifo(jobs, events);
    assert forall|i: int| 0 <= i < given.len() implies (#[trigger] given[i]).sound() by {
        if i < jobs.len() {
            assert(given[i] == jobs[i]);
        } else {
            assert(given[i] == enqueued(events)[i - jobs.len()]);
        }
    }
    assert forall|i: int| 0 <= i < taken.len() implies (#[trigger] taken[i]).sound() by {
        assert((taken + left)[i] == taken[i]);
        assert(given[i].sound());
    }
    assert forall|i: int| 0 <= i < left.len() implies (#[trigger] left[i]).sound() by {
        assert((taken + left)[i + taken.len()] == left[i]);
        assert(given[i + taken.len()].sound());
    }
}

/// A driver from its start. It asked for `actions[i]`, was told `events[i]`,
/// and stood at `states[i]` in between.
pub struct DriverRun<K> {
    /// Where the driver stood.
    pub states: Seq<DriverState<K>>,
    /// What it asked for.
    pub actions: Seq<DriverAction<K>>,
    /// What came of it.
    pub events: Seq<DriverEvent<K>>,
}

impl<K> DriverRun<K> {
    /// The driver started, and every event answered its last action.
    pub open spec fn valid(self) -> bool {
        &&& self.states.len() == self.events.len() + 1
        &&& self.actions.len() == self.events.len() + 1
        &&& self.states[0] == DriverState::<K>::Polling
        &&& self.actions[0] == DriverAction::<K>::Poll
        &&& forall|i: int| #![trigger self.events[i]]
            0 <= i < self.events.len() ==> {
                &&& awaits(self.states[i], self.events[i])
                &&& (self.states[i + 1], self.actions[i + 1]) == transition(
                    self.states[i],
                    self.events[i],
                )
            }
    }

    /// The action tells a completion its result.
    pub open spec fn tells(self, index: int) -> bool {
        self.actions[index] is Complete || self.actions[index] is Fail
    }
}

/// The state and the action at a point of a run belong together.
proof fn lemma_state_matches_action<K>(run: DriverRun<K>, index: int)
    requires
        run.valid(),
        0 <= index < run.states.len(),
    ensures
        run.actions[index] is Poll <==> run.states[index] is Polling,
        run.actions[index] is Sleep <==> run.states[index] is Sleeping,
        run.actions[index] is Inspect <==> run.states[index] is Inspecting,
        run.actions[index] is Execute <==> run.states[index] is Executing,
        run.actions[index] is Release <==> run.states[index] is Settling,
        run.tells(index) || run.actions[index] is DropJob <==> run.states[index] is Dropping,
        run.actions[index] is CloseWal <==> run.states[index] is ClosingWal,
        run.actions[index] is CloseDatabase <==> run.states[index] is ClosingDatabase,
        run.actions[index] is Stop <==> run.states[index] is Stopped,
    decreases index,
{
    if index > 0 {
        lemma_state_matches_action(run, index - 1);
        assert(awaits(run.states[index - 1], run.events[index - 1]));
    }
}

/// A completion is told exactly what its operation came to: the three steps
/// before are to take the job, to execute it and to give back its reservation.
/// It is told only where nothing had settled it in the meantime.
pub proof fn law_result_told_after_release<K>(run: DriverRun<K>, index: int)
    requires
        run.valid(),
        0 <= index < run.actions.len(),
        run.tells(index),
    ensures
        index >= 3,
        run.actions[index - 1] is Release,
        run.actions[index - 2] is Execute,
        run.actions[index - 3] is Inspect,
        run.events[index - 1] matches DriverEvent::Inspected(status) && !status.settled(),
        run.actions[index] matches DriverAction::Complete(bytes) ==> run.events[index - 2]
            == DriverEvent::Executed(Ok::<i32, Failure<K>>(bytes)),
        run.actions[index] matches DriverAction::Fail(failure) ==> run.events[index - 2]
            == DriverEvent::Executed(Err::<i32, Failure<K>>(failure)),
{
    lemma_state_matches_action(run, index);
    assert(awaits(run.states[index - 1], run.events[index - 1]));
    lemma_state_matches_action(run, index - 1);
    assert(awaits(run.states[index - 2], run.events[index - 2]));
    lemma_state_matches_action(run, index - 2);
    assert(awaits(run.states[index - 3], run.events[index - 3]));
    lemma_state_matches_action(run, index - 3);
}

/// A completion is told at most once: after it is told, or its job is dropped,
/// the driver goes back to the queue.
pub proof fn law_result_told_once<K>(run: DriverRun<K>, index: int)
    requires
        run.valid(),
        0 <= index < run.events.len(),
        run.tells(index) || run.actions[index] is DropJob,
    ensures
        run.actions[index + 1] is Poll,
{
    lemma_state_matches_action(run, index);
    assert(awaits(run.states[index], run.events[index]));
}

/// An operation whose completion is settled already is not executed, and one
/// whose completion is not is.
pub proof fn law_settled_job_is_not_executed<K>(run: DriverRun<K>, index: int)
    requires
        run.valid(),
        0 <= index < run.events.len(),
        run.actions[index] is Inspect,
    ensures
        run.events[index] matches DriverEvent::Inspected(status) && (run.actions[index
            + 1] is Execute <==> !status.settled()) && (run.actions[index + 1] is DropJob
            <==> status.settled()),
{
    lemma_state_matches_action(run, index);
    assert(awaits(run.states[index], run.events[index]));
}

/// The files are closed only once the connection is closed and the queue was
/// found empty, so every accepted operation has had its turn.
pub proof fn law_closing_waits_for_queue<K>(run: DriverRun<K>, index: int)
    requires
        run.valid(),
        0 <= index < run.actions.len(),
        run.actions[index] is CloseWal,
    ensures
        index >= 1,
        run.events[index - 1] == (DriverEvent::<K>::Polled { found: false, closed: true }),
{
    lemma_state_matches_action(run, index);
    assert(awaits(run.states[index - 1], run.events[index - 1]));
}

/// The database, whose lock protects both files, is closed only once closing
/// the WAL has ended, and the driver stops only after both.
pub proof fn law_database_closed_after_wal<K>(run: DriverRun<K>, index: int)
    requires
        run.valid(),
        0 <= index < run.actions.len(),
    ensures
        run.actions[index] is CloseDatabase ==> index >= 1 && run.actions[index - 1] is CloseWal
            && run.events[index - 1] is Closed,
        run.actions[index] is Stop ==> index >= 1 && run.actions[index - 1] is CloseDatabase
            && run.events[index - 1] is Closed,
{
    lemma_state_matches_action(run, index);
    if index > 0 {
        lemma_state_matches_action(run, index - 1);
        assert(awaits(run.states[index - 1], run.events[index - 1]));
    }
}

/// Nothing is executed once the files are being closed.
pub proof fn law_nothing_after_closing<K>(run: DriverRun<K>, closing: int, index: int)
    requires
        run.valid(),
        0 <= closing < index < run.actions.len(),
        run.actions[closing] is CloseWal,
    ensures
        run.actions[index] is CloseDatabase || run.actions[index] is Stop,
    decreases index,
{
    lemma_state_matches_action(run, index - 1);
    assert(awaits(run.states[index - 1], run.events[index - 1]));
    if closing < index - 1 {
        law_nothing_after_closing(run, closing, index - 1);
    }
}

/// A driver from its start, together with the queue that it serves, which was
/// empty. `arrivals[i]` are the jobs that were put into the queue since the
/// event before `run.events[i]`, oldest first.
pub struct Service<C, W, K> {
    /// The driver.
    pub run: DriverRun<K>,
    /// The jobs that arrived before each event.
    pub arrivals: Seq<Seq<Job<C, W>>>,
}

/// Jobs are put into a queue one after the other.
pub open spec fn arriving<C, W>(jobs: Seq<Job<C, W>>) -> Seq<QueueEvent<C, W>> {
    jobs.map_values(|job: Job<C, W>| QueueEvent::Enqueued(job))
}

impl<C, W, K> Service<C, W, K> {
    /// What has happened to the queue before the driver looks at it for the
    /// event with this index, or does something else.
    pub open spec fn until(self, index: int) -> Seq<QueueEvent<C, W>> {
        self.history(index) + arriving(self.arrivals[index])
    }

    /// What the first so many events and the arrivals before them did to the
    /// queue.
    pub open spec fn history(self, count: int) -> Seq<QueueEvent<C, W>>
        decreases count,
    {
        if count <= 0 {
            Seq::empty()
        } else {
            let arrived = self.history(count - 1) + arriving(self.arrivals[count - 1]);
            if self.run.events[count - 1] is Polled {
                arrived.push(QueueEvent::Popped)
            } else {
                arrived
            }
        }
    }

    /// The jobs that wait when the event with this index comes about.
    pub open spec fn waiting_at(self, index: int) -> Seq<Job<C, W>> {
        waiting(Seq::empty(), self.until(index))
    }

    /// The driver ran, and finds a job whenever it looks at a queue that is not
    /// empty.
    pub open spec fn valid(self) -> bool {
        &&& self.run.valid()
        &&& self.arrivals.len() == self.run.events.len()
        &&& forall|i: int| #![trigger self.run.events[i]]
            0 <= i < self.run.events.len() ==> {
                self.run.events[i] matches DriverEvent::Polled { found, .. } ==> (found
                    <==> self.waiting_at(i).len() > 0)
            }
    }

    /// All jobs that were ever put into the queue, in order.
    pub open spec fn submitted(self) -> Seq<Job<C, W>> {
        enqueued(self.history(self.run.events.len() as int))
    }

    /// How many jobs the first so many events took off the queue.
    pub open spec fn taken(self, count: int) -> int {
        popped(Seq::empty(), self.history(count)).len() as int
    }

    /// The job that is executed by the action with this index: the one that was
    /// found when the queue was looked at, two events before.
    pub open spec fn executed(self, index: int) -> Job<C, W> {
        self.waiting_at(index - 2).first()
    }

    /// The position of that job among all that were submitted.
    pub open spec fn turn(self, index: int) -> int {
        self.taken(index - 2)
    }
}

/// Arrivals take nothing off a queue, and are added at its end.
proof fn lemma_arriving<C, W>(events: Seq<QueueEvent<C, W>>, jobs: Seq<Job<C, W>>)
    ensures
        popped(Seq::empty(), events + arriving(jobs)) == popped(Seq::empty(), events),
        waiting(Seq::empty(), events + arriving(jobs)) == waiting(Seq::empty(), events) + jobs,
        enqueued(events + arriving(jobs)) == enqueued(events) + jobs,
    decreases jobs.len(),
{
    let all = events + arriving(jobs);
    if jobs.len() == 0 {
        assert(all =~= events);
        assert(waiting(Seq::empty(), events) + jobs =~= waiting(Seq::empty(), events));
        assert(enqueued(events) + jobs =~= enqueued(events));
    } else {
        let fewer = jobs.drop_last();
        lemma_arriving(events, fewer);
        assert(all.drop_last() =~= events + arriving(fewer));
        assert(all.last() == QueueEvent::Enqueued(jobs.last()));
        let before = waiting(Seq::empty(), events);
        assert((before + fewer).push(jobs.last()) =~= before + jobs);
        assert((enqueued(events) + fewer).push(jobs.last()) =~= enqueued(events) + jobs);
    }
}

/// One more event takes a job off exactly where it finds one, and adds at the
/// end of what was submitted.
proof fn lemma_one_event<C, W, K>(service: Service<C, W, K>, index: int)
    requires
        service.valid(),
        0 <= index < service.run.events.len(),
    ensures
        popped(Seq::empty(), service.history(index + 1)) == if service.run.events[index]
            matches DriverEvent::Polled { found: true, .. } {
            popped(Seq::empty(), service.history(index)).push(service.waiting_at(index).first())
        } else {
            popped(Seq::empty(), service.history(index))
        },
        enqueued(service.history(index + 1)) == enqueued(service.history(index))
            + service.arrivals[index],
{
    let before = service.history(index);
    let arrived = service.until(index);
    lemma_arriving(before, service.arrivals[index]);
    if service.run.events[index] is Polled {
        let after = service.history(index + 1);
        assert(after.drop_last() =~= arrived);
        assert(after.last() == QueueEvent::<C, W>::Popped);
    }
}

/// What was taken and submitted up to some point stays at its place.
proof fn lemma_history_grows<C, W, K>(service: Service<C, W, K>, fewer: int, more: int)
    requires
        service.valid(),
        0 <= fewer <= more <= service.run.events.len(),
    ensures
        service.taken(fewer) <= service.taken(more),
        enqueued(service.history(fewer)).len() <= enqueued(service.history(more)).len(),
        forall|i: int|
            0 <= i < enqueued(service.history(fewer)).len() ==> #[trigger] enqueued(
                service.history(more),
            )[i] == enqueued(service.history(fewer))[i],
    decreases more,
{
    if fewer < more {
        lemma_history_grows(service, fewer, more - 1);
        lemma_one_event(service, more - 1);
    }
}

/// An executed job was found in the queue two events before.
proof fn lemma_executed_was_found<C, W, K>(service: Service<C, W, K>, index: int)
    requires
        service.valid(),
        0 <= index < service.run.actions.len(),
        service.run.actions[index] is Execute,
    ensures
        index >= 2,
        service.run.events[index - 2] matches DriverEvent::Polled { found: true, .. },
{
    let run = service.run;
    lemma_state_matches_action(run, index);
    assert(awaits(run.states[index - 1], run.events[index - 1]));
    lemma_state_matches_action(run, index - 1);
    assert(awaits(run.states[index - 2], run.events[index - 2]));
}

/// An executed job is the one whose turn it is: the job that stands there in
/// the order of submission.
pub proof fn law_jobs_execute_in_turn<C, W, K>(service: Service<C, W, K>, index: int)
    requires
        service.valid(),
        0 <= index < service.run.actions.len(),
        service.run.actions[index] is Execute,
    ensures
        index >= 2,
        0 <= service.turn(index) < service.submitted().len(),
        service.executed(index) == service.submitted()[service.turn(index)],
{
    lemma_executed_was_found(service, index);
    let poll = index - 2;
    let history = service.history(poll + 1);
    lemma_one_event(service, poll);
    law_queue_is_fifo(Seq::empty(), history);
    lemma_history_grows(service, poll + 1, service.run.events.len() as int);
    let taken = popped(Seq::<Job<C, W>>::empty(), history);
    let left = waiting(Seq::<Job<C, W>>::empty(), history);
    let turn = service.turn(index);
    assert(Seq::<Job<C, W>>::empty() + enqueued(history) =~= enqueued(history));
    assert((taken + left)[turn] == taken[turn]);
    assert(taken[turn] == service.executed(index));
}

/// Operations are executed in the order in which they were submitted, each at
/// most once: of two executions by one driver, the earlier one has the earlier
/// turn.
pub proof fn law_earlier_execution_has_earlier_turn<C, W, K>(
    service: Service<C, W, K>,
    earlier: int,
    later: int,
)
    requires
        service.valid(),
        0 <= earlier < later < service.run.actions.len(),
        service.run.actions[earlier] is Execute,
        service.run.actions[later] is Execute,
    ensures
        0 <= service.turn(earlier) < service.turn(later) < service.submitted().len(),
{
    law_jobs_execute_in_turn(service, earlier);
    law_jobs_execute_in_turn(service, later);
    lemma_executed_was_found(service, earlier);
    lemma_executed_was_found(service, later);
    lemma_one_event(service, earlier - 2);
    lemma_history_grows(service, earlier - 1, later - 2);
}

/// Where only sound jobs are submitted, only sound jobs are executed: the
/// operation is for one of the two files and within the range that was checked
/// for it.
pub proof fn law_executed_jobs_are_sound<C, W, K>(service: Service<C, W, K>, index: int)
    requires
        service.valid(),
        all_sound(service.submitted()),
        0 <= index < service.run.actions.len(),
        service.run.actions[index] is Execute,
    ensures
        service.executed(index).sound(),
{
    law_jobs_execute_in_turn(service, index);
    assert(service.submitted()[service.turn(index)].sound());
}

/// Accepted operations drain before the files are closed: by the time that the
/// driver closes the WAL, it has taken every job that was submitted so far.
pub proof fn law_queue_drains_before_closing<C, W, K>(service: Service<C, W, K>, index: int)
    requires
        service.valid(),
        0 <= index < service.run.actions.len(),
        service.run.actions[index] is CloseWal,
    ensures
        waiting(Seq::empty(), service.history(index)).len() == 0,
        popped(Seq::empty(), service.history(index)) == enqueued(service.history(index)),
{
    law_closing_waits_for_queue(service.run, index);
    let poll = index - 1;
    let history = service.history(index);
    let none = Seq::<Job<C, W>>::empty();
    assert(service.run.events[poll] is Polled);
    assert(history.drop_last() =~= service.until(poll));
    assert(history.last() == QueueEvent::<C, W>::Popped);
    law_queue_is_fifo(none, history);
    assert(popped(none, history) + waiting(none, history) =~= popped(none, history));
    assert(none + enqueued(history) =~= enqueued(history));
}

/// What the driver looks at next. A job that was found is looked at; an empty
/// queue ends the driver where the connection is closed, and is awaited
/// otherwise; a notification leads back to the queue.
pub proof fn law_what_follows_the_queue<K>(run: DriverRun<K>, index: int)
    requires
        run.valid(),
        0 <= index < run.events.len(),
    ensures
        run.actions[index] is Poll ==> (run.events[index]
            matches DriverEvent::Polled { found, closed } && (run.actions[index + 1] is Inspect
            <==> found) && (run.actions[index + 1] is CloseWal <==> !found && closed) && (
        run.actions[index + 1] is Sleep <==> !found && !closed)),
        run.actions[index] is Sleep ==> run.events[index] is Woken && run.actions[index
            + 1] is Poll,
{
    lemma_state_matches_action(run, index);
    assert(awaits(run.states[index], run.events[index]));
}

/// A job whose completion has neither a result nor an error is executed, and
/// what it came to is followed by giving its reservation back. Any other job is
/// dropped.
pub proof fn law_pending_jobs_are_executed<K>(run: DriverRun<K>, index: int)
    requires
        run.valid(),
        0 <= index < run.events.len(),
    ensures
        run.actions[index] is Inspect ==> (run.events[index] matches DriverEvent::Inspected(status)
            && run.actions[index + 1] == if !status.finished && !status.failed {
            DriverAction::<K>::Execute
        } else {
            DriverAction::<K>::DropJob
        }),
        run.actions[index] is Execute ==> run.events[index] is Executed && run.actions[index
            + 1] is Release,
{
    lemma_state_matches_action(run, index);
    assert(awaits(run.states[index], run.events[index]));
}

/// Every executed operation whose completion is still pending is told: it
/// completes with the count that it came to, or fails with the failure. Where
/// the completion was settled in the meantime, the job is dropped.
pub proof fn law_pending_completions_are_told<K>(run: DriverRun<K>, index: int)
    requires
        run.valid(),
        0 <= index < run.events.len(),
        run.actions[index] is Release,
    ensures
        index >= 1,
        run.events[index - 1] matches DriverEvent::Executed(result) && (run.events[index]
            matches DriverEvent::Inspected(status) && run.actions[index + 1] == if status.finished
            || status.failed {
            DriverAction::<K>::DropJob
        } else {
            match result {
                Ok(bytes) => DriverAction::Complete(bytes),
                Err(failure) => DriverAction::Fail(failure),
            }
        }),
{
    lemma_state_matches_action(run, index);
    assert(awaits(run.states[index], run.events[index]));
    lemma_state_matches_action(run, index - 1);
    assert(awaits(run.states[index - 1], run.events[index - 1]));
}

/// Closing goes on to the end: the WAL, the database, and then the task stops.
pub proof fn law_closing_goes_on<K>(run: DriverRun<K>, index: int)
    requires
        run.valid(),
        0 <= index < run.events.len(),
    ensures
        run.actions[index] is CloseWal ==> run.actions[index + 1] is CloseDatabase,
        run.actions[index] is CloseDatabase ==> run.actions[index + 1] is Stop,
        !(run.actions[index] is Stop),
{
    lemma_state_matches_action(run, index);
    assert(awaits(run.states[index], run.events[index]));
}

/// Whatever comes of an action, the driver takes it in: the queue may or may not
/// hold a job and the connection may or may not be closed, a completion may say
/// anything of itself, and an operation may have any result.
pub proof fn law_every_answer_is_awaited<K>(
    run: DriverRun<K>,
    index: int,
    found: bool,
    closed: bool,
    status: Status,
    result: Result<i32, Failure<K>>,
)
    requires
        run.valid(),
        0 <= index < run.actions.len(),
    ensures
        ({
            let state = run.states[index];
            match run.actions[index] {
                DriverAction::Poll => awaits(state, DriverEvent::Polled { found, closed }),
                DriverAction::Sleep => awaits(state, DriverEvent::Woken),
                DriverAction::Inspect => awaits(state, DriverEvent::Inspected(status)),
                DriverAction::Execute => awaits(state, DriverEvent::Executed(result)),
                DriverAction::Release => awaits(state, DriverEvent::Inspected(status)),
                DriverAction::Complete(_) => awaits(state, DriverEvent::Dropped),
                DriverAction::Fail(_) => awaits(state, DriverEvent::Dropped),
                DriverAction::DropJob => awaits(state, DriverEvent::Dropped),
                DriverAction::CloseWal => awaits(state, DriverEvent::Closed),
                DriverAction::CloseDatabase => awaits(state, DriverEvent::Closed),
                DriverAction::Stop => true,
            }
        }),
{
    lemma_state_matches_action(run, index);
}

/// A completion is settled exactly where it has a result or has failed.
pub proof fn law_settled_completions(status: Status)
    ensures
        status.settled() <==> status.finished || status.failed,
{
}

} // verus!
