//! The charge that every accepted operation and every retained byte carries.
//!
//! A [`Budget`] counts the operations and bytes that are outstanding. What it
//! counts is owned by two kinds of value: a [`Reservation`], which stands for
//! one operation and the bytes reserved for it, and a [`ReadBuffer`], whose
//! capacity stays charged for as long as the allocation lives, whether it is
//! idle in the cache, attached to a reservation, or in use by the kernel.

use vstd::prelude::*;

use crate::options::{cap, Options};

verus! {

/// The outstanding operations and retained bytes of one connection.
pub struct Budget {
    /// Operations that hold a reservation.
    pub operations: usize,
    /// Bytes that reservations and read buffers hold.
    pub bytes: usize,
    /// The limits under which new reservations are made.
    pub limits: Options,
}

/// One allocation for read staging. Its capacity is charged to the budget
/// until the allocation is discarded.
pub struct ReadBuffer {
    /// The staged bytes.
    pub data: Vec<u8>,
    /// The bytes charged for the allocation behind `data`.
    pub capacity: usize,
}

/// The charge of one accepted operation.
pub struct Reservation {
    /// Bytes reserved for the operation, apart from those of `read_buffer`.
    pub bytes: usize,
    /// A staging allocation that was handed over with its own charge.
    pub read_buffer: Option<ReadBuffer>,
}

/// The charge of an optional read buffer.
pub open spec fn capacity_of(buffer: Option<ReadBuffer>) -> usize {
    match buffer {
        Some(buffer) => buffer.capacity,
        None => 0,
    }
}

impl Budget {
    /// One more operation stays within the limit.
    pub open spec fn admits_operation(self) -> bool {
        self.operations + 1 <= cap(self.limits.max_outstanding_operations)
    }

    /// So many more bytes stay within the limit.
    pub open spec fn admits_bytes(self, bytes: usize) -> bool {
        self.bytes + bytes <= cap(self.limits.max_retained_bytes)
    }

    /// No limit is exceeded.
    pub open spec fn within_limits(self) -> bool {
        &&& self.operations <= cap(self.limits.max_outstanding_operations)
        &&& self.bytes <= cap(self.limits.max_retained_bytes)
    }

    /// The budget after one operation and so many bytes are charged.
    pub open spec fn charged(self, bytes: usize) -> Budget {
        Budget {
            operations: (self.operations + 1) as usize,
            bytes: (self.bytes + bytes) as usize,
            limits: self.limits,
        }
    }

    /// The budget after so many bytes are given back.
    pub open spec fn without_bytes(self, bytes: usize) -> Budget {
        Budget { bytes: self.bytes.wrapping_sub(bytes), ..self }
    }

    /// The budget after an operation is given back with all that it holds.
    pub open spec fn without_reservation(self, reservation: Reservation) -> Budget {
        let rest = self.without_bytes(capacity_of(reservation.read_buffer)).without_bytes(
            reservation.bytes,
        );
        Budget { operations: rest.operations.wrapping_sub(1), ..rest }
    }

    /// A budget with nothing outstanding.
    pub fn new(limits: Options) -> (budget: Budget)
        ensures
            budget == (Budget { operations: 0, bytes: 0, limits }),
    {
        Budget { operations: 0, bytes: 0, limits }
    }

    /// Whether one more operation stays within the limit.
    pub fn can_start(&self) -> (fits: bool)
        ensures
            fits == self.admits_operation(),
    {
        match self.operations.checked_add(1) {
            Some(count) => count <= self.limits.max_outstanding_operations.unwrap_or(usize::MAX),
            None => false,
        }
    }

    /// Whether so many more bytes stay within the limit.
    pub fn can_retain(&self, bytes: usize) -> (fits: bool)
        ensures
            fits == self.admits_bytes(bytes),
    {
        match self.bytes.checked_add(bytes) {
            Some(total) => total <= self.limits.max_retained_bytes.unwrap_or(usize::MAX),
            None => false,
        }
    }

    /// Charges one operation and so many bytes.
    pub fn charge(&mut self, bytes: usize) -> (reservation: Reservation)
        requires
            old(self).admits_operation(),
            old(self).admits_bytes(bytes),
        ensures
            *final(self) == old(self).charged(bytes),
            reservation == (Reservation { bytes, read_buffer: None }),
    {
        self.operations = self.operations + 1;
        self.bytes = self.bytes + bytes;
        Reservation { bytes, read_buffer: None }
    }

    /// Gives back the charge of a staging allocation, together with the
    /// allocation itself.
    pub fn discard(&mut self, buffer: Option<ReadBuffer>)
        ensures
            *final(self) == old(self).without_bytes(capacity_of(buffer)),
    {
        match buffer {
            Some(buffer) => {
                self.bytes = self.bytes.wrapping_sub(buffer.capacity);
            },
            None => {},
        }
    }
}

impl Reservation {
    /// Everything that the reservation holds.
    pub open spec fn held(self) -> nat {
        self.bytes as nat + capacity_of(self.read_buffer) as nat
    }

    /// The reservation pays for a staging allocation of so many bytes: either
    /// it brings one that is large enough, or exactly that many bytes are
    /// reserved.
    pub open spec fn pays_for(self, length: usize) -> bool {
        match self.read_buffer {
            Some(buffer) => self.bytes == 0 && buffer.capacity >= length,
            None => self.bytes == length,
        }
    }

    /// Gives back the reserved bytes and keeps the operation.
    pub fn release_bytes(&mut self, budget: &mut Budget)
        ensures
            *final(self) == (Reservation { bytes: 0, ..*old(self) }),
            *final(budget) == old(budget).without_bytes(old(self).bytes),
    {
        let bytes: usize = self.bytes;
        self.bytes = 0;
        if bytes != 0 {
            budget.bytes = budget.bytes.wrapping_sub(bytes);
        }
    }

    /// Ends the operation: gives back everything that the reservation holds.
    pub fn discard(self, budget: &mut Budget)
        ensures
            *final(budget) == old(budget).without_reservation(self),
    {
        let mut reservation = self;
        let buffer = reservation.read_buffer.take();
        budget.discard(buffer);
        reservation.release_bytes(budget);
        budget.operations = budget.operations.wrapping_sub(1);
    }
}

/// The charge of a read buffer is its capacity, and without one there is none.
pub proof fn law_read_buffer_is_charged_whole(buffer: Option<ReadBuffer>)
    ensures
        buffer matches Some(buffer) ==> capacity_of(Some(buffer)) == buffer.capacity,
        buffer is None ==> capacity_of(buffer) == 0,
{
}

/// A reservation holds its bytes and the capacity of the buffer that it brings.
/// It pays for a read with a buffer that is large enough, or with exactly the
/// bytes of the read.
pub proof fn law_what_reservations_hold(bytes: usize, buffer: ReadBuffer, length: usize)
    ensures
        (Reservation { bytes, read_buffer: None }).held() == bytes,
        (Reservation { bytes, read_buffer: Some(buffer) }).held() == bytes + buffer.capacity,
        (Reservation { bytes, read_buffer: None }).pays_for(length) <==> bytes == length,
        (Reservation { bytes, read_buffer: Some(buffer) }).pays_for(length) <==> bytes == 0
            && length <= buffer.capacity,
{
}

/// One more operation, and so many more bytes, are admitted exactly up to the
/// explicit limit, or up to what can be counted.
pub proof fn law_admitted_up_to_the_limit(budget: Budget, bytes: usize)
    ensures
        budget.admits_operation() <==> match budget.limits.max_outstanding_operations {
            Some(most) => budget.operations < most,
            None => budget.operations < usize::MAX,
        },
        budget.admits_bytes(bytes) <==> match budget.limits.max_retained_bytes {
            Some(most) => budget.bytes + bytes <= most,
            None => budget.bytes + bytes <= usize::MAX,
        },
        budget.within_limits() <==> {
            &&& budget.limits.max_outstanding_operations matches Some(most) ==> budget.operations
                <= most
            &&& budget.limits.max_retained_bytes matches Some(most) ==> budget.bytes <= most
        },
{
}

/// Charging adds one operation and exactly the bytes, and leaves the limits.
pub proof fn law_charging_adds(budget: Budget, bytes: usize)
    requires
        budget.operations < usize::MAX,
        budget.bytes + bytes <= usize::MAX,
    ensures
        budget.charged(bytes).operations == budget.operations + 1,
        budget.charged(bytes).bytes == budget.bytes + bytes,
        budget.charged(bytes).limits == budget.limits,
{
}

/// Giving bytes back takes off exactly the bytes, and giving a reservation back
/// takes off one operation, its bytes and the capacity of its buffer. The limits
/// stay.
pub proof fn law_giving_back_subtracts(budget: Budget, bytes: usize, reservation: Reservation)
    requires
        bytes <= budget.bytes,
        budget.operations >= 1,
        reservation.bytes + (match reservation.read_buffer {
            Some(buffer) => buffer.capacity as int,
            None => 0,
        }) <= budget.bytes,
    ensures
        budget.without_bytes(bytes).bytes == budget.bytes - bytes,
        budget.without_bytes(bytes).operations == budget.operations,
        budget.without_bytes(bytes).limits == budget.limits,
        budget.without_reservation(reservation).operations == budget.operations - 1,
        budget.without_reservation(reservation).bytes == budget.bytes - reservation.bytes - (
        match reservation.read_buffer {
            Some(buffer) => buffer.capacity as int,
            None => 0,
        }),
        budget.without_reservation(reservation).limits == budget.limits,
{
}

} // verus!
