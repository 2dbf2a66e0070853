//! The task that executes queued operations one at a time.
//!
//! The driver says what to do and is told what came of it. It takes the oldest
//! job off the queue, executes it unless its completion is settled already,
//! gives back its reservation before the completion is told (the callback may
//! submit new operations), and goes on. Once the connection is closed and the
//! queue is empty it closes the WAL and then the database, whose lock has to
//! outlast the WAL handle.

use vstd::prelude::*;

use crate::execution::Failure;

verus! {

/// What a completion says of itself.
#[derive(Clone, Copy, Debug, PartialEq, Eq)]
pub struct Status {
    /// It has a result.
    pub finished: bool,
    /// It has failed.
    pub failed: bool,
}

impl Status {
    /// Nothing is left to be told.
    pub open spec fn settled(self) -> bool {
        self.finished || self.failed
    }

    /// Whether nothing is left to be told.
    pub fn is_settled(&self) -> (settled: bool)
        ensures
            settled == self.settled(),
    {
        self.finished || self.failed
    }

    /// Whether the completion has to be aborted when what would have told it
    /// goes away.
    pub fn needs_abort(&self) -> (abort: bool)
        ensures
            abort == !self.finished,
    {
        !self.finished
    }
}

/// Where the driver stands.
#[derive(Debug, PartialEq, Eq)]
pub enum DriverState<K> {
    /// The queue is being looked at.
    Polling,
    /// There is no job, and a notification is awaited.
    Sleeping,
    /// A job was taken, and its completion is being looked at.
    Inspecting,
    /// The job's operation is being executed.
    Executing,
    /// The operation has this result, and its completion is being looked at.
    Settling(Result<i32, Failure<K>>),
    /// The job is being dropped.
    Dropping,
    /// The WAL is being closed.
    ClosingWal,
    /// The database is being closed.
    ClosingDatabase,
    /// Nothing is left to do.
    Stopped,
}

/// What came of the driver's last action.
#[derive(Debug, PartialEq, Eq)]
pub enum DriverEvent<K> {
    /// The queue did or did not hold a job; the connection is or is not closed.
    Polled { found: bool, closed: bool },
    /// A notification arrived.
    Woken,
    /// The completion of the job says this of itself.
    Inspected(Status),
    /// The operation has this result.
    Executed(Result<i32, Failure<K>>),
    /// The job is gone.
    Dropped,
    /// A file is closed, or closing it failed.
    Closed,
}

/// What the driver wants done.
#[derive(Debug, PartialEq, Eq)]
pub enum DriverAction<K> {
    /// Register for notifications, then take the oldest job off the queue.
    Poll,
    /// Await the notification.
    Sleep,
    /// Look at the completion of the job.
    Inspect,
    /// Execute the operation of the job.
    Execute,
    /// Give back the reservation of the job, then look at its completion.
    Release,
    /// Complete with this count, then drop the job.
    Complete(i32),
    /// Fail with this error, then drop the job.
    Fail(Failure<K>),
    /// Drop the job.
    DropJob,
    /// Close the WAL.
    CloseWal,
    /// Close the database.
    CloseDatabase,
    /// End the task.
    Stop,
}

/// The event answers what the driver asked for in this state.
pub open spec fn awaits<K>(state: DriverState<K>, event: DriverEvent<K>) -> bool {
    match (state, event) {
        (DriverState::Polling, DriverEvent::Polled { .. }) => true,
        (DriverState::Sleeping, DriverEvent::Woken) => true,
        (DriverState::Inspecting, DriverEvent::Inspected(_)) => true,
        (DriverState::Executing, DriverEvent::Executed(_)) => true,
        (DriverState::Settling(_), DriverEvent::Inspected(_)) => true,
        (DriverState::Dropping, DriverEvent::Dropped) => true,
        (DriverState::ClosingWal, DriverEvent::Closed) => true,
        (DriverState::ClosingDatabase, DriverEvent::Closed) => true,
        _ => false,
    }
}

/// The state that follows, and what is to be done in it.
pub open spec fn transition<K>(
    state: DriverState<K>,
    event: DriverEvent<K>,
) -> (DriverState<K>, DriverAction<K>) {
    match (state, event) {
        (DriverState::Polling, DriverEvent::Polled { found, closed }) => if found {
            (DriverState::Inspecting, DriverAction::Inspect)
        } else if closed {
            (DriverState::ClosingWal, DriverAction::CloseWal)
        } else {
            (DriverState::Sleeping, DriverAction::Sleep)
        },
        (DriverState::Inspecting, DriverEvent::Inspected(status)) => if status.settled() {
            (DriverState::Dropping, DriverAction::DropJob)
        } else {
            (DriverState::Executing, DriverAction::Execute)
        },
        (DriverState::Executing, DriverEvent::Executed(result)) => (
            DriverState::Settling(result),
            DriverAction::Release,
        ),
        (DriverState::Settling(result), DriverEvent::Inspected(status)) => if status.settled() {
            (DriverState::Dropping, DriverAction::DropJob)
        } else {
            match result {
                Ok(bytes) => (DriverState::Dropping, DriverAction::Complete(bytes)),
                Err(failure) => (DriverState::Dropping, DriverAction::Fail(failure)),
            }
        },
        (DriverState::Dropping, DriverEvent::Dropped) => (DriverState::Polling, DriverAction::Poll),
        (DriverState::Sleeping, DriverEvent::Woken) => (DriverState::Polling, DriverAction::Poll),
        (DriverState::ClosingWal, DriverEvent::Closed) => (
            DriverState::ClosingDatabase,
            DriverAction::CloseDatabase,
        ),
        _ => (DriverState::Stopped, DriverAction::Stop),
    }
}

/// The task's state between two actions.
pub struct Driver<K> {
    /// Where the driver stands.
    pub state: DriverState<K>,
}

impl<K> Driver<K> {
    /// A driver that has yet to look at the queue, and its first action.
    pub fn start() -> (started: (Driver<K>, DriverAction<K>))
        ensures
            started.0.state == DriverState::<K>::Polling,
            started.1 == DriverAction::<K>::Poll,
    {
        (Driver { state: DriverState::Polling }, DriverAction::Poll)
    }

    /// Takes in what came of the last action and says what is to be done.
    pub fn advance(&mut self, event: DriverEvent<K>) -> (action: DriverAction<K>)
        requires
            awaits(old(self).state, event),
        ensures
            (final(self).state, action) == transition(old(self).state, event),
    {
        let mut state = DriverState::Stopped;
        std::mem::swap(&mut state, &mut self.state);
        let (next, action) = match (state, event) {
            (DriverState::Polling, DriverEvent::Polled { found, closed }) => {
                if found {
                    (DriverState::Inspecting, DriverAction::Inspect)
                } else if closed {
                    (DriverState::ClosingWal, DriverAction::CloseWal)
                } else {
                    (DriverState::Sleeping, DriverAction::Sleep)
                }
            },
            (DriverState::Inspecting, DriverEvent::Inspected(status)) => {
                if status.is_settled() {
                    (DriverState::Dropping, DriverAction::DropJob)
                } else {
                    (DriverState::Executing, DriverAction::Execute)
                }
            },
            (DriverState::Executing, DriverEvent::Executed(result)) => {
                (DriverState::Settling(result), DriverAction::Release)
            },
            (DriverState::Settling(result), DriverEvent::Inspected(status)) => {
                if status.is_settled() {
                    (DriverState::Dropping, DriverAction::DropJob)
                } else {
                    match result {
                        Ok(bytes) => (DriverState::Dropping, DriverAction::Complete(bytes)),
                        Err(failure) => (DriverState::Dropping, DriverAction::Fail(failure)),
                    }
                }
            },
            (DriverState::Dropping, DriverEvent::Dropped) => {
                (DriverState::Polling, DriverAction::Poll)
            },
            (DriverState::Sleeping, DriverEvent::Woken) => {
                (DriverState::Polling, DriverAction::Poll)
            },
            (DriverState::ClosingWal, DriverEvent::Closed) => {
                (DriverState::ClosingDatabase, DriverAction::CloseDatabase)
            },
            _ => (DriverState::Stopped, DriverAction::Stop),
        };
        self.state = next;
        action
    }
}

} // verus!
