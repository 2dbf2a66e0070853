//! The one staging allocation that consecutive reads share.

use vstd::prelude::*;

use crate::bridge::Queue;
use crate::budget::{capacity_of, Budget, ReadBuffer, Reservation};
use crate::driver::Status;
use crate::execution::Failure;

verus! {

/// Some bytes cut or filled up with zeros to a length.
pub open spec fn resized(bytes: Seq<u8>, length: nat) -> Seq<u8> {
    Seq::new(length, |i: int| if i < bytes.len() { bytes[i] } else { 0 })
}

/// The bytes that count after a read of which only the first `read` arrived.
pub open spec fn zero_filled(bytes: Seq<u8>, read: nat) -> Seq<u8> {
    Seq::new(bytes.len(), |i: int| if i < read { bytes[i] } else { 0 })
}

/// The allocation that a read looks at first: the one that its reservation
/// brings, else the cached one.
pub open spec fn candidate(
    reservation: Reservation,
    cached: Option<ReadBuffer>,
) -> Option<ReadBuffer> {
    if reservation.read_buffer is Some {
        reservation.read_buffer
    } else {
        cached
    }
}

/// An allocation of at least so many bytes is there.
pub open spec fn suffices(buffer: Option<ReadBuffer>, length: usize) -> bool {
    buffer is Some && capacity_of(buffer) >= length
}

/// The budget after a read has its staging buffer. A reused allocation is
/// charged already, so the bytes reserved for a new one are given back. A new
/// allocation takes over the bytes reserved for it, and one that is too small
/// is given back.
pub open spec fn budget_after_staging(
    budget: Budget,
    reservation: Reservation,
    cached: Option<ReadBuffer>,
    length: usize,
) -> Budget {
    let found = candidate(reservation, cached);
    if suffices(found, length) {
        budget.without_bytes(reservation.bytes)
    } else {
        budget.without_bytes(capacity_of(found))
    }
}

/// The staging buffer that a read of so many bytes is given.
pub open spec fn staged(
    reservation: Reservation,
    cached: Option<ReadBuffer>,
    length: usize,
) -> (Seq<u8>, usize) {
    let found = candidate(reservation, cached);
    if suffices(found, length) {
        (resized(found->0.data@, length as nat), found->0.capacity)
    } else {
        (resized(Seq::empty(), length as nat), length)
    }
}

impl Reservation {
    /// Provides the staging buffer for a read of so many bytes and moves the
    /// bytes reserved for it to the buffer. Allocates only where neither the
    /// reservation nor the cache has an allocation that is large enough.
    pub fn stage<C, W>(
        &mut self,
        queue: &mut Queue<C, W>,
        budget: &mut Budget,
        length: usize,
    ) -> (buffer: ReadBuffer)
        ensures
            final(self).bytes == 0,
            final(self).read_buffer is None,
            final(queue).jobs == old(queue).jobs,
            old(self).read_buffer is Some ==> final(queue).read_buffer == old(queue).read_buffer,
            old(self).read_buffer is None ==> final(queue).read_buffer is None,
            *final(budget) == budget_after_staging(
                *old(budget),
                *old(self),
                old(queue).read_buffer,
                length,
            ),
            (buffer.data@, buffer.capacity) == staged(
                *old(self),
                old(queue).read_buffer,
                length,
            ),
    {
        let mut found = self.read_buffer.take();
        if found.is_none() {
            found = queue.read_buffer.take();
        }
        assert(found == candidate(*old(self), old(queue).read_buffer));
        match found {
            Some(mut buffer) => {
                if buffer.capacity >= length {
                    self.release_bytes(budget);
                    let ghost before = buffer.data@;
                    buffer.data.resize(length, 0);
                    assert(buffer.data@ =~= resized(before, length as nat)) by {
                        if length > before.len() {
                            assert forall|i: int| 0 <= i < before.len() implies #[trigger]
                                buffer.data@[i] == before[i] by {
                                assert(buffer.data@.subrange(0, before.len() as int)[i]
                                    == before[i]);
                            }
                        }
                    }
                    return buffer;
                }
                budget.discard(Some(buffer));
            },
            None => {},
        }
        self.bytes = 0;
        let data: Vec<u8> = vec![0; length];
        assert(data@ =~= resized(Seq::empty(), length as nat));
        ReadBuffer { data, capacity: length }
    }
}

impl ReadBuffer {
    /// Zeroes everything behind the bytes that a read delivered: what an
    /// earlier read left there is stale.
    pub fn zero_from(&mut self, read: usize)
        requires
            read <= old(self).data@.len(),
        ensures
            final(self).data@ == zero_filled(old(self).data@, read as nat),
            final(self).capacity == old(self).capacity,
    {
        let length: usize = self.data.len();
        self.data.truncate(read);
        let ghost kept = self.data@;
        self.data.resize(length, 0);
        assert(self.data@ =~= zero_filled(old(self).data@, read as nat)) by {
            assert forall|i: int| 0 <= i < read implies #[trigger] self.data@[i]
                == old(self).data@[i] by {
                if length > read {
                    assert(self.data@.subrange(0, read as int)[i] == kept[i]);
                }
            }
        }
    }

    /// Prepares the staged bytes for the reader, and says whether they are to
    /// be copied to it. Nothing is copied where the read failed or its
    /// completion is settled, for the reader may have reused its buffer.
    pub fn deliver<K>(&mut self, result: &Result<i32, Failure<K>>, status: &Status) -> (copied:
        bool)
        requires
            result matches Ok(read) ==> 0 <= *read <= old(self).data@.len(),
        ensures
            copied == (result is Ok && !status.settled()),
            copied ==> final(self).data@ == zero_filled(old(self).data@, result->Ok_0 as nat),
            !copied ==> final(self).data@ == old(self).data@,
            final(self).capacity == old(self).capacity,
    {
        match result {
            Ok(read) => {
                if status.is_settled() {
                    return false;
                }
                self.zero_from(*read as usize);
                true
            },
            Err(_) => false,
        }
    }
}

impl<C, W> Queue<C, W> {
    /// Keeps a staging buffer for the next read and gives back the one that
    /// was kept before.
    pub fn keep(&mut self, buffer: ReadBuffer, budget: &mut Budget)
        ensures
            final(self).jobs == old(self).jobs,
            final(self).read_buffer == Some(buffer),
            *final(budget) == old(budget).without_bytes(capacity_of(old(self).read_buffer)),
    {
        let previous = self.read_buffer.take();
        self.read_buffer = Some(buffer);
        budget.discard(previous);
    }
}

/// Cutting or filling up gives the length asked for, keeps the bytes that were
/// there and adds zeros. Zero-filling keeps the length and the bytes that were
/// read, and leaves nothing of the rest.
pub proof fn law_bytes_kept_and_zeroed(bytes: Seq<u8>, length: nat, index: int)
    requires
        0 <= index,
    ensures
        resized(bytes, length).len() == length,
        index < length && index < bytes.len() ==> resized(bytes, length)[index] == bytes[index],
        bytes.len() <= index < length ==> resized(bytes, length)[index] == 0,
        zero_filled(bytes, length).len() == bytes.len(),
        index < length && index < bytes.len() ==> zero_filled(bytes, length)[index] == bytes[index],
        length <= index < bytes.len() ==> zero_filled(bytes, length)[index] == 0,
{
}

/// Which allocation a read is staged in, and what it does to the budget. An
/// allocation that the reservation brings comes first, else the cached one. It
/// is used where it is large enough, and the bytes reserved for a new one are
/// given back. Otherwise a new allocation of exactly the length takes over the
/// reserved bytes, and the one that is too small is given back.
pub proof fn law_staging_in_numbers(
    budget: Budget,
    reservation: Reservation,
    cached: Option<ReadBuffer>,
    length: usize,
)
    requires
        reservation.bytes <= budget.bytes,
        reservation.read_buffer matches Some(buffer) ==> buffer.capacity <= budget.bytes,
        cached matches Some(buffer) ==> buffer.capacity <= budget.bytes,
    ensures
        ({
            let after = budget_after_staging(budget, reservation, cached, length);
            let (bytes, capacity) = staged(reservation, cached, length);
            let found = match reservation.read_buffer {
                Some(buffer) => Some(buffer),
                None => cached,
            };
            &&& after.operations == budget.operations
            &&& after.limits == budget.limits
            &&& bytes.len() == length
            &&& match found {
                Some(buffer) => if buffer.capacity >= length {
                    &&& capacity == buffer.capacity
                    &&& after.bytes == budget.bytes - reservation.bytes
                } else {
                    &&& capacity == length
                    &&& after.bytes == budget.bytes - buffer.capacity
                },
                None => {
                    &&& capacity == length
                    &&& after.bytes == budget.bytes
                },
            }
        }),
{
}

} // verus!
