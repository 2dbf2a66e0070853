//! That the budget always equals what is held against it.
//!
//! A charge is held by a reservation, by the cached read buffer, or by a read
//! buffer that the kernel is using. The laws here say that every operation on
//! the budget keeps it equal to the sum of what is held, and within the limits.
//! So no charge is lost, none is given back twice, and no subtraction wraps.

use vstd::prelude::*;

use crate::bridge::{reserve_outcome, reserve_read_outcome, without_jobs, Admission, Job};
use crate::budget::{capacity_of, Budget, ReadBuffer, Reservation};
use crate::error::Rejection;
use crate::options::{cap, Options};
use crate::staging::{budget_after_staging, candidate, staged, suffices};

verus! {

/// A budget and everything that is held against it.
pub struct Ledger {
    /// The budget.
    pub budget: Budget,
    /// The reservations of accepted operations.
    pub reservations: Seq<Reservation>,
    /// The cached read buffer.
    pub cached: Option<ReadBuffer>,
    /// The charges of the read buffers that are in use.
    pub staged: Seq<usize>,
}

/// What some reservations hold.
pub open spec fn held_by(reservations: Seq<Reservation>) -> nat
    decreases reservations.len(),
{
    if reservations.len() == 0 {
        0
    } else {
        held_by(reservations.drop_last()) + reservations.last().held()
    }
}

/// The sum of some charges.
pub open spec fn sum(charges: Seq<usize>) -> nat
    decreases charges.len(),
{
    if charges.len() == 0 {
        0
    } else {
        sum(charges.drop_last()) + charges.last() as nat
    }
}

impl Ledger {
    /// The budget counts exactly what is held, and is within its limits.
    pub open spec fn balanced(self) -> bool {
        &&& self.budget.operations == self.reservations.len()
        &&& self.budget.bytes == held_by(self.reservations) + capacity_of(self.cached) + sum(
            self.staged,
        )
        &&& self.budget.within_limits()
    }

    /// The ledger after an attempt to reserve.
    pub open spec fn after(self, admission: Admission) -> Ledger {
        Ledger {
            budget: admission.budget,
            reservations: match admission.verdict {
                Ok(reservation) => self.reservations.push(reservation),
                Err(_) => self.reservations,
            },
            cached: match admission.cached {
                Some(cached) => cached,
                None => self.cached,
            },
            staged: self.staged,
        }
    }

    /// The ledger after the reservation at an index is given back.
    pub open spec fn without(self, index: int) -> Ledger {
        Ledger {
            budget: self.budget.without_reservation(self.reservations[index]),
            reservations: self.reservations.remove(index),
            ..self
        }
    }

    /// The ledger after the reservation at an index has provided the staging
    /// buffer for a read of so many bytes.
    pub open spec fn staging(self, index: int, length: usize) -> Ledger {
        let reservation = self.reservations[index];
        Ledger {
            budget: budget_after_staging(self.budget, reservation, self.cached, length),
            reservations: self.reservations.update(
                index,
                Reservation { bytes: 0, read_buffer: None },
            ),
            cached: if reservation.read_buffer is Some {
                self.cached
            } else {
                None
            },
            staged: self.staged.push(staged(reservation, self.cached, length).1),
        }
    }

    /// The ledger after a staging buffer in use becomes the cached one.
    pub open spec fn keeping(self, index: int, buffer: ReadBuffer) -> Ledger {
        Ledger {
            budget: self.budget.without_bytes(capacity_of(self.cached)),
            cached: Some(buffer),
            staged: self.staged.remove(index),
            ..self
        }
    }

    /// The ledger after the cached read buffer is discarded.
    pub open spec fn uncached(self) -> Ledger {
        Ledger {
            budget: self.budget.without_bytes(capacity_of(self.cached)),
            cached: None,
            ..self
        }
    }

    /// The ledger after a staging buffer in use is discarded.
    pub open spec fn discarding(self, index: int) -> Ledger {
        Ledger {
            budget: self.budget.without_bytes(self.staged[index]),
            staged: self.staged.remove(index),
            ..self
        }
    }
}

/// Taking one reservation out lowers what is held by what that one holds.
proof fn lemma_held_remove(reservations: Seq<Reservation>, index: int)
    requires
        0 <= index < reservations.len(),
    ensures
        held_by(reservations) == held_by(reservations.remove(index)) + reservations[index].held(),
    decreases reservations.len(),
{
    let last = reservations.len() - 1;
    if index == last {
        assert(reservations.remove(index) =~= reservations.drop_last());
    } else {
        lemma_held_remove(reservations.drop_last(), index);
        assert(reservations.remove(index).drop_last() =~= reservations.drop_last().remove(index));
    }
}

/// Replacing one reservation changes what is held by the difference.
proof fn lemma_held_update(reservations: Seq<Reservation>, index: int, other: Reservation)
    requires
        0 <= index < reservations.len(),
    ensures
        held_by(reservations.update(index, other)) + reservations[index].held() == held_by(
            reservations,
        ) + other.held(),
{
    lemma_held_remove(reservations, index);
    lemma_held_remove(reservations.update(index, other), index);
    assert(reservations.update(index, other).remove(index) =~= reservations.remove(index));
}

/// Taking one charge out lowers the sum by it.
proof fn lemma_sum_remove(charges: Seq<usize>, index: int)
    requires
        0 <= index < charges.len(),
    ensures
        sum(charges) == sum(charges.remove(index)) + charges[index],
    decreases charges.len(),
{
    let last = charges.len() - 1;
    if index == last {
        assert(charges.remove(index) =~= charges.drop_last());
    } else {
        lemma_sum_remove(charges.drop_last(), index);
        assert(charges.remove(index).drop_last() =~= charges.drop_last().remove(index));
    }
}

/// A connection starts with a balanced ledger, whatever its limits.
pub proof fn law_new_connection_balances(limits: Options)
    ensures
        Ledger::new(limits).balanced(),
{
}

/// An attempt to reserve keeps the ledger balanced, whether it succeeds or not
/// and whether the queue could be locked or not.
pub proof fn law_reserve_balances(ledger: Ledger, locked: bool, bytes: usize)
    requires
        ledger.balanced(),
    ensures
        ledger.after(reserve_outcome(ledger.budget, ledger.seen(locked), bytes)).balanced(),
{
    let reservation = Reservation { bytes, read_buffer: None };
    assert(ledger.reservations.push(reservation).drop_last() =~= ledger.reservations);
}

/// An attempt to reserve a read keeps the ledger balanced: a cached buffer that
/// changes hands is not charged twice.
pub proof fn law_reserve_read_balances(ledger: Ledger, locked: bool, length: usize)
    requires
        ledger.balanced(),
    ensures
        ledger.after(
            reserve_read_outcome(ledger.budget, ledger.seen(locked), length),
        ).balanced(),
{
    law_reserve_balances(ledger, locked, length);
    let reservation = Reservation { bytes: 0, read_buffer: ledger.cached };
    assert(ledger.reservations.push(reservation).drop_last() =~= ledger.reservations);
}

/// Giving a reservation back keeps the ledger balanced.
pub proof fn law_release_balances(ledger: Ledger, index: int)
    requires
        ledger.balanced(),
        0 <= index < ledger.reservations.len(),
    ensures
        ledger.without(index).balanced(),
{
    lemma_held_remove(ledger.reservations, index);
}

/// Staging a read keeps the ledger balanced, provided that its reservation pays
/// for it. Every reservation that a read is granted does.
pub proof fn law_staging_balances(ledger: Ledger, index: int, length: usize)
    requires
        ledger.balanced(),
        0 <= index < ledger.reservations.len(),
        ledger.reservations[index].pays_for(length),
    ensures
        ledger.staging(index, length).balanced(),
{
    let reservation = ledger.reservations[index];
    let spent = Reservation { bytes: 0, read_buffer: None };
    let charge = staged(reservation, ledger.cached, length).1;
    lemma_held_update(ledger.reservations, index, spent);
    lemma_held_remove(ledger.reservations, index);
    assert(ledger.staged.push(charge).drop_last() =~= ledger.staged);
}

/// Keeping a staging buffer for the next read keeps the ledger balanced: the
/// buffer stays charged, and the one that it displaces is given back.
pub proof fn law_keeping_balances(ledger: Ledger, index: int, buffer: ReadBuffer)
    requires
        ledger.balanced(),
        0 <= index < ledger.staged.len(),
        ledger.staged[index] == buffer.capacity,
    ensures
        ledger.keeping(index, buffer).balanced(),
{
    lemma_sum_remove(ledger.staged, index);
}

/// Discarding a staging buffer keeps the ledger balanced.
pub proof fn law_discarding_balances(ledger: Ledger, index: int)
    requires
        ledger.balanced(),
        0 <= index < ledger.staged.len(),
    ensures
        ledger.discarding(index).balanced(),
{
    lemma_sum_remove(ledger.staged, index);
}

/// Discarding the cached read buffer keeps the ledger balanced.
pub proof fn law_uncaching_balances(ledger: Ledger)
    requires
        ledger.balanced(),
    ensures
        ledger.uncached().balanced(),
{
}

/// What happens to a ledger.
pub enum LedgerEvent {
    /// An operation and so many bytes are to be reserved, with or without the
    /// queue.
    Reserve { locked: bool, bytes: usize },
    /// A read of so many bytes is to be reserved, with or without the queue.
    ReserveRead { locked: bool, length: usize },
    /// The reservation at an index is given back.
    Release { index: int },
    /// The reservation at an index provides the staging buffer of its read.
    Stage { index: int, length: usize },
    /// The staging buffer at an index becomes the cached one.
    Keep { index: int, buffer: ReadBuffer },
    /// The staging buffer at an index is discarded.
    Discard { index: int },
    /// The cached read buffer is discarded.
    Uncache,
}

impl Ledger {
    /// A new connection's ledger.
    pub open spec fn new(limits: Options) -> Ledger {
        Ledger {
            budget: Budget { operations: 0, bytes: 0, limits },
            reservations: Seq::empty(),
            cached: None,
            staged: Seq::empty(),
        }
    }

    /// The event can happen: what it is about is there, and a read is staged
    /// with the reservation that it was granted.
    pub open spec fn allows(self, event: LedgerEvent) -> bool {
        match event {
            LedgerEvent::Release { index } => 0 <= index < self.reservations.len(),
            LedgerEvent::Stage { index, length } => {
                &&& 0 <= index < self.reservations.len()
                &&& self.reservations[index].pays_for(length)
            },
            LedgerEvent::Keep { index, buffer } => {
                &&& 0 <= index < self.staged.len()
                &&& self.staged[index] == buffer.capacity
            },
            LedgerEvent::Discard { index } => 0 <= index < self.staged.len(),
            _ => true,
        }
    }

    /// What an attempt to lock the queue shows of the cached read buffer.
    pub open spec fn seen(self, locked: bool) -> Option<Option<ReadBuffer>> {
        if locked {
            Some(self.cached)
        } else {
            None
        }
    }

    /// The ledger after an event.
    pub open spec fn next(self, event: LedgerEvent) -> Ledger {
        match event {
            LedgerEvent::Reserve { locked, bytes } => self.after(
                reserve_outcome(self.budget, self.seen(locked), bytes),
            ),
            LedgerEvent::ReserveRead { locked, length } => self.after(
                reserve_read_outcome(self.budget, self.seen(locked), length),
            ),
            LedgerEvent::Release { index } => self.without(index),
            LedgerEvent::Stage { index, length } => self.staging(index, length),
            LedgerEvent::Keep { index, buffer } => self.keeping(index, buffer),
            LedgerEvent::Discard { index } => self.discarding(index),
            LedgerEvent::Uncache => self.uncached(),
        }
    }
}

/// The ledger of a connection after some events.
pub open spec fn ledger_after(limits: Options, events: Seq<LedgerEvent>) -> Ledger
    decreases events.len(),
{
    if events.len() == 0 {
        Ledger::new(limits)
    } else {
        ledger_after(limits, events.drop_last()).next(events.last())
    }
}

/// Each of the events could happen when it did.
pub open spec fn possible(limits: Options, events: Seq<LedgerEvent>) -> bool
    decreases events.len(),
{
    events.len() > 0 ==> {
        &&& possible(limits, events.drop_last())
        &&& ledger_after(limits, events.drop_last()).allows(events.last())
    }
}

/// Whatever happens on a connection, in whatever order, its budget counts
/// exactly what is held against it and stays within the limits that the
/// connection was opened with.
pub proof fn law_every_ledger_balances(limits: Options, events: Seq<LedgerEvent>)
    requires
        possible(limits, events),
    ensures
        ledger_after(limits, events).balanced(),
        ledger_after(limits, events).budget.limits == limits,
    decreases events.len(),
{
    if events.len() == 0 {
        law_new_connection_balances(limits);
    } else {
        let before = ledger_after(limits, events.drop_last());
        law_every_ledger_balances(limits, events.drop_last());
        match events.last() {
            LedgerEvent::Reserve { locked, bytes } => {
                law_reserve_balances(before, locked, bytes);
            },
            LedgerEvent::ReserveRead { locked, length } => {
                law_reserve_read_balances(before, locked, length);
            },
            LedgerEvent::Release { index } => {
                law_release_balances(before, index);
            },
            LedgerEvent::Stage { index, length } => {
                law_staging_balances(before, index, length);
            },
            LedgerEvent::Keep { index, buffer } => {
                law_keeping_balances(before, index, buffer);
            },
            LedgerEvent::Discard { index } => {
                law_discarding_balances(before, index);
            },
            LedgerEvent::Uncache => {
                law_uncaching_balances(before);
            },
        }
    }
}

/// The reservations of some jobs, oldest first.
pub open spec fn reservations_of<C, W>(jobs: Seq<Job<C, W>>) -> Seq<Reservation>
    decreases jobs.len(),
{
    if jobs.len() == 0 {
        Seq::empty()
    } else {
        match jobs.last().reservation {
            Some(reservation) => reservations_of(jobs.drop_last()).push(reservation),
            None => reservations_of(jobs.drop_last()),
        }
    }
}

/// Giving back the reservations of some jobs takes off exactly what they hold.
proof fn lemma_without_jobs<C, W>(budget: Budget, jobs: Seq<Job<C, W>>)
    requires
        budget.operations >= reservations_of(jobs).len(),
        budget.bytes >= held_by(reservations_of(jobs)),
    ensures
        without_jobs(budget, jobs).operations == budget.operations - reservations_of(jobs).len(),
        without_jobs(budget, jobs).bytes == budget.bytes - held_by(reservations_of(jobs)),
        without_jobs(budget, jobs).limits == budget.limits,
    decreases jobs.len(),
{
    if jobs.len() > 0 {
        match jobs.last().reservation {
            Some(reservation) => {
                let before = reservations_of(jobs.drop_last());
                assert(before.push(reservation).drop_last() =~= before);
            },
            None => {},
        }
        lemma_without_jobs(budget, jobs.drop_last());
    }
}

/// When the driver goes away while nothing is being executed, abandoning the
/// queue gives everything back: nothing stays charged.
pub proof fn law_abandon_gives_all_back<C, W>(ledger: Ledger, jobs: Seq<Job<C, W>>)
    requires
        ledger.balanced(),
        ledger.reservations == reservations_of(jobs),
        ledger.staged.len() == 0,
    ensures
        without_jobs(ledger.budget, jobs).without_bytes(capacity_of(ledger.cached)) == (Budget {
            operations: 0,
            bytes: 0,
            limits: ledger.budget.limits,
        }),
{
    lemma_without_jobs(ledger.budget, jobs);
}

/// An idle cached buffer never stands in the way: where the queue can be
/// locked, a request is admitted exactly if it would be without the cache.
pub proof fn law_idle_cache_never_rejects(ledger: Ledger, bytes: usize)
    requires
        ledger.balanced(),
    ensures
        ({
            let budget = ledger.budget;
            let used = budget.bytes - capacity_of(ledger.cached);
            reserve_outcome(budget, Some(ledger.cached), bytes).verdict is Ok <==> {
                &&& budget.operations + 1 <= cap(budget.limits.max_outstanding_operations)
                &&& used + bytes <= cap(budget.limits.max_retained_bytes)
            }
        }),
{
}

/// A read is admitted wherever as many bytes would be admitted at all.
pub proof fn law_read_admitted_like_bytes(ledger: Ledger, length: usize)
    requires
        ledger.balanced(),
        reserve_outcome(ledger.budget, Some(ledger.cached), length).verdict is Ok,
    ensures
        reserve_read_outcome(ledger.budget, Some(ledger.cached), length).verdict is Ok,
{
}

/// Without explicit limits, only sums that the accounting cannot hold are
/// refused, and the refusal says that there are no limits.
pub proof fn law_unlimited_rejects_only_overflow(ledger: Ledger, bytes: usize)
    requires
        ledger.balanced(),
        ledger.budget.limits.max_outstanding_operations is None,
        ledger.budget.limits.max_retained_bytes is None,
    ensures
        ({
            let used = ledger.budget.bytes - capacity_of(ledger.cached);
            let verdict = reserve_outcome(ledger.budget, Some(ledger.cached), bytes).verdict;
            &&& verdict is Err <==> ledger.budget.operations == usize::MAX || used + bytes
                > usize::MAX
            &&& verdict matches Err(rejection) ==> rejection == (Rejection::LimitsExceeded {
                limits: ledger.budget.limits,
            })
        }),
{
}

/// A request that is refused takes nothing: the operations stay as they were,
/// and at most the idle cached buffer is given up.
pub proof fn law_refusal_takes_nothing(ledger: Ledger, locked: bool, bytes: usize)
    requires
        ledger.balanced(),
    ensures
        ({
            let outcome = reserve_outcome(ledger.budget, ledger.seen(locked), bytes);
            let after = ledger.after(outcome);
            outcome.verdict is Err ==> {
                &&& after.reservations == ledger.reservations
                &&& after.budget.operations == ledger.budget.operations
                &&& after.budget.bytes == ledger.budget.bytes - capacity_of(ledger.cached)
                    + capacity_of(after.cached)
                &&& after.cached == ledger.cached || after.cached is None
            }
        }),
{
}

/// Reserving and giving back the reservation restores the budget, up to an idle
/// cached buffer that had to go.
pub proof fn law_release_undoes_reserve(ledger: Ledger, bytes: usize)
    requires
        ledger.balanced(),
    ensures
        ({
            let outcome = reserve_outcome(ledger.budget, Some(ledger.cached), bytes);
            outcome.verdict matches Ok(reservation) ==> {
                let released = outcome.budget.without_reservation(reservation);
                &&& released.operations == ledger.budget.operations
                &&& released.bytes == ledger.budget.bytes - capacity_of(ledger.cached)
                    + capacity_of(outcome.cached->0)
                &&& released.limits == ledger.budget.limits
            }
        }),
{
}

/// A staging buffer is never larger than what was charged for it, and a read
/// that finds a large enough allocation does not allocate.
pub proof fn law_staging_stays_within_charge(
    reservation: Reservation,
    cached: Option<ReadBuffer>,
    length: usize,
)
    requires
        reservation.pays_for(length),
    ensures
        ({
            let (bytes, capacity) = staged(reservation, cached, length);
            &&& bytes.len() == length
            &&& length <= capacity
            &&& suffices(candidate(reservation, cached), length) ==> capacity == capacity_of(
                candidate(reservation, cached),
            )
            &&& !suffices(candidate(reservation, cached), length) ==> capacity == reservation.bytes
        }),
{
}

} // verus!
