//! How long a connection lasts.
//!
//! Two things end, each of them once. The connection is closed when its last
//! handle is dropped; the driver then drains the queue. The driver is gone when
//! its task ends or is dropped with its runtime; nothing is accepted from then
//! on.

use vstd::prelude::*;

use crate::bridge::{without_jobs, Caller, Endpoint, Job, Queue};
use crate::budget::{capacity_of, Budget};

verus! {

/// What has ended of a connection.
#[derive(Clone, Copy, Debug, PartialEq, Eq, Structural)]
pub struct Lifetime {
    /// The task that executes operations is still there.
    pub alive: bool,
    /// The last handle of the connection was dropped.
    pub closed: bool,
}

impl Lifetime {
    /// Where a call comes from, while this much of the connection has ended.
    pub open spec fn observed(self, same_thread: bool, runtime_fd: Option<i32>) -> Caller {
        Caller { same_thread, alive: self.alive, runtime_fd }
    }

    /// A connection that was just made: its driver is to live, and a handle is
    /// there.
    pub fn new() -> (lifetime: Lifetime)
        ensures
            lifetime == (Lifetime { alive: true, closed: false }),
    {
        Lifetime { alive: true, closed: false }
    }

    /// Describes a call, given whether it is made on the thread that opened the
    /// connection and the descriptor of the runtime around it.
    pub fn caller(&self, same_thread: bool, runtime_fd: Option<i32>) -> (caller: Caller)
        ensures
            caller == self.observed(same_thread, runtime_fd),
    {
        Caller { same_thread, alive: self.alive, runtime_fd }
    }

    /// Takes in that the last handle was dropped.
    pub fn close(&mut self)
        ensures
            *final(self) == (Lifetime { closed: true, ..*old(self) }),
    {
        self.closed = true;
    }

    /// Takes in that the driver is gone, and then empties the queue where it
    /// could be locked. The completions of the jobs that waited come out oldest
    /// first, to be aborted where they are still pending: by that time no call
    /// is accepted any more.
    pub fn end<C, W>(&mut self, queue: Option<&mut Queue<C, W>>, budget: &mut Budget) -> (
        completions: Vec<C>)
        ensures
            *final(self) == (Lifetime { alive: false, ..*old(self) }),
            match queue {
                Some(q) => {
                    &&& final(q).jobs@ == Seq::<Job<C, W>>::empty()
                    &&& final(q).read_buffer is None
                    &&& completions@ == q.jobs@.map_values(|job: Job<C, W>| job.completion)
                    &&& *final(budget) == without_jobs(*old(budget), q.jobs@).without_bytes(
                        capacity_of(q.read_buffer),
                    )
                },
                None => completions@ == Seq::<C>::empty() && *final(budget) == *old(budget),
            },
    {
        self.alive = false;
        match queue {
            Some(queue) => queue.abandon(budget),
            None => Vec::new(),
        }
    }
}

/// What happens to the lifetime of a connection.
#[derive(Clone, Copy, Debug, PartialEq, Eq, Structural)]
pub enum LifetimeEvent {
    /// The last handle was dropped.
    Closed,
    /// The driver is gone.
    Ended,
}

/// What has ended after some events.
pub open spec fn lifetime_after(lifetime: Lifetime, events: Seq<LifetimeEvent>) -> Lifetime
    decreases events.len(),
{
    if events.len() == 0 {
        lifetime
    } else {
        let before = lifetime_after(lifetime, events.drop_last());
        match events.last() {
            LifetimeEvent::Closed => Lifetime { closed: true, ..before },
            LifetimeEvent::Ended => Lifetime { alive: false, ..before },
        }
    }
}

/// Whatever happens, what has ended of a connection is exactly what was ended:
/// nothing that ended begins again.
proof fn lemma_lifetime_after(lifetime: Lifetime, events: Seq<LifetimeEvent>)
    ensures
        lifetime_after(lifetime, events).alive <==> lifetime.alive && !events.contains(
            LifetimeEvent::Ended,
        ),
        lifetime_after(lifetime, events).closed <==> lifetime.closed || events.contains(
            LifetimeEvent::Closed,
        ),
    decreases events.len(),
{
    if events.len() > 0 {
        let earlier = events.drop_last();
        lemma_lifetime_after(lifetime, earlier);
        assert forall|event: LifetimeEvent| #[trigger]
            events.contains(event) <==> earlier.contains(event) || event == events.last() by {
            if events.contains(event) && event != events.last() {
                let i = choose|i: int| 0 <= i < events.len() && events[i] == event;
                assert(earlier[i] == event);
            }
            if earlier.contains(event) {
                let i = choose|i: int| 0 <= i < earlier.len() && earlier[i] == event;
                assert(events[i] == event);
            }
            if event == events.last() {
                assert(events[events.len() - 1] == event);
            }
        }
    }
}

/// Once the driver is gone, no call is ever accepted again, wherever it comes
/// from and whatever happens in between.
pub proof fn law_ended_connection_accepts_nothing(
    endpoint: Endpoint,
    lifetime: Lifetime,
    events: Seq<LifetimeEvent>,
    same_thread: bool,
    runtime_fd: Option<i32>,
)
    requires
        !lifetime.alive || events.contains(LifetimeEvent::Ended),
    ensures
        !endpoint.accepts(lifetime_after(lifetime, events).observed(same_thread, runtime_fd)),
{
    lemma_lifetime_after(lifetime, events);
}

/// Until the driver is gone, a connection accepts every call that is made on
/// the thread and in the runtime that opened it, closed or not.
pub proof fn law_living_connection_accepts_its_owner(
    endpoint: Endpoint,
    lifetime: Lifetime,
    events: Seq<LifetimeEvent>,
)
    requires
        lifetime.alive,
        !events.contains(LifetimeEvent::Ended),
    ensures
        endpoint.accepts(
            lifetime_after(lifetime, events).observed(true, Some(endpoint.runtime_fd)),
        ),
{
    lemma_lifetime_after(lifetime, events);
}

/// A connection that is closed stays closed, so its driver comes to close the
/// files.
pub proof fn law_closed_connection_stays_closed(lifetime: Lifetime, events: Seq<LifetimeEvent>)
    requires
        lifetime.closed || events.contains(LifetimeEvent::Closed),
    ensures
        lifetime_after(lifetime, events).closed,
{
    lemma_lifetime_after(lifetime, events);
}

/// A call is observed as it is: what is known of it is handed on, and whether
/// the driver lives is as the connection knows.
pub proof fn law_calls_are_observed_as_they_are(
    lifetime: Lifetime,
    same_thread: bool,
    runtime_fd: Option<i32>,
)
    ensures
        lifetime.observed(same_thread, runtime_fd).same_thread == same_thread,
        lifetime.observed(same_thread, runtime_fd).runtime_fd == runtime_fd,
        lifetime.observed(same_thread, runtime_fd).alive == lifetime.alive,
{
}

} // verus!
