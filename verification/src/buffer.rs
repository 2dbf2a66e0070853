//! The buffers that Turso submits, as far as admission depends on them.

use vstd::prelude::*;

use crate::bridge::total;
use crate::error::Rejection;

verus! {

#[verifier::external_type_specification]
#[verifier::external_body]
pub struct ExBuffer(turso::core::Buffer);

/// What a Turso buffer exposes, and the allocation behind it.
#[derive(Clone, Copy, Debug, PartialEq, Eq)]
pub enum BufferShape {
    /// A whole heap allocation.
    Heap { length: usize },
    /// A whole allocation that is shared and never written.
    Shared { length: usize },
    /// The tail of an allocation that is shared and never written. How large
    /// the allocation is cannot be seen.
    SharedView { length: usize },
    /// A heap allocation from a position on.
    HeapView { allocation: usize, start: usize },
    /// A slot of Turso's buffer pool.
    Pooled { length: usize },
}

/// The shape of a Turso buffer. A buffer keeps its shape for as long as it
/// lives, whatever becomes of its bytes.
pub uninterp spec fn buffer_shape(buffer: turso::core::Buffer) -> BufferShape;

/// Reads the shape of a Turso buffer off its variant: the lengths of
/// `Buffer::Heap`, of both kinds of `Buffer::Shared` and of `Buffer::Pooled`,
/// and the two fields of `Buffer::HeapView`. Claimed of it: the result is a
/// function of the buffer. Not claimed is anything of the bytes, which Turso
/// may change through a shared reference.
#[verifier::external_body]
fn describe(buffer: &turso::core::Buffer) -> (shape: BufferShape)
    ensures
        shape == buffer_shape(*buffer),
{
    match buffer {
        turso::core::Buffer::Heap(data) => BufferShape::Heap { length: data.len() },
        turso::core::Buffer::Shared(turso::core::io::SharedBufferData::Full(data)) => BufferShape::Shared { length: data.len() },
        turso::core::Buffer::Shared(turso::core::io::SharedBufferData::View(view)) => {
            BufferShape::SharedView { length: view.len() }
        },
        turso::core::Buffer::HeapView { data, start } => {
            BufferShape::HeapView { allocation: data.len(), start: *start }
        },
        turso::core::Buffer::Pooled(data) => BufferShape::Pooled { length: data.logical_len() },
    }
}

impl BufferShape {
    /// A view starts within its allocation.
    pub open spec fn valid(self) -> bool {
        self matches BufferShape::HeapView { allocation, start } ==> start <= allocation
    }

    /// How many bytes are exposed.
    pub open spec fn exposed(self) -> usize {
        match self {
            BufferShape::Heap { length } => length,
            BufferShape::Shared { length } => length,
            BufferShape::SharedView { length } => length,
            BufferShape::HeapView { allocation, start } => (allocation - start) as usize,
            BufferShape::Pooled { length } => length,
        }
    }

    /// How many bytes are charged while the buffer is retained.
    pub open spec fn charge(self) -> usize {
        match self {
            BufferShape::HeapView { allocation, .. } => allocation,
            _ => self.exposed(),
        }
    }

    /// The shape of a Turso buffer.
    pub fn of(buffer: &turso::core::Buffer) -> (shape: BufferShape)
        ensures
            shape == buffer_shape(*buffer),
    {
        describe(buffer)
    }

    /// Whether a view starts within its allocation.
    pub fn is_valid(&self) -> (valid: bool)
        ensures
            valid == self.valid(),
    {
        match self {
            BufferShape::HeapView { allocation, start } => *start <= *allocation,
            _ => true,
        }
    }

    /// How many bytes are exposed.
    pub fn length(&self) -> (length: usize)
        requires
            self.valid(),
        ensures
            length == self.exposed(),
    {
        match self {
            BufferShape::Heap { length } => *length,
            BufferShape::Shared { length } => *length,
            BufferShape::SharedView { length } => *length,
            BufferShape::HeapView { allocation, start } => *allocation - *start,
            BufferShape::Pooled { length } => *length,
        }
    }

    /// How many bytes are charged while the buffer is retained.
    pub fn allocation(&self) -> (bytes: usize)
        requires
            self.valid(),
        ensures
            bytes == self.charge(),
    {
        match self {
            BufferShape::HeapView { allocation, .. } => *allocation,
            _ => self.length(),
        }
    }

    /// Whether the buffer can never be written.
    pub fn is_immutable(&self) -> (immutable: bool)
        ensures
            immutable == (self is Shared || self is SharedView),
    {
        match self {
            BufferShape::Shared { .. } => true,
            BufferShape::SharedView { .. } => true,
            _ => false,
        }
    }
}

/// How the bytes of a write stay available until the kernel has read them.
#[derive(Clone, Copy, Debug, PartialEq, Eq)]
pub enum Retention {
    /// The buffer itself is kept.
    Owned,
    /// The immutable allocation behind the buffer is kept.
    Shared,
    /// The bytes are copied.
    Snapshot,
}

impl Retention {
    /// How a buffer is retained. A shared view is copied, for the allocation
    /// that it would keep cannot be charged. Any other buffer is kept where
    /// nobody else can reach it, or where nobody can write it. What is left is
    /// copied, for Turso may reuse a page as soon as a write is cancelled.
    pub open spec fn of(shape: BufferShape, sole_owner: bool) -> Retention {
        if shape is SharedView {
            Retention::Snapshot
        } else if sole_owner {
            Retention::Owned
        } else if shape is Shared {
            Retention::Shared
        } else {
            Retention::Snapshot
        }
    }

    /// How many bytes are retained.
    pub open spec fn retained(self, shape: BufferShape) -> usize {
        match self {
            Retention::Owned => shape.charge(),
            Retention::Shared => shape.exposed(),
            Retention::Snapshot => shape.exposed(),
        }
    }

    /// How a buffer is retained, given whether its only owner handed it over.
    pub fn from_buffer(shape: &BufferShape, sole_owner: bool) -> (retention: Retention)
        ensures
            retention == Retention::of(*shape, sole_owner),
    {
        match shape {
            BufferShape::SharedView { .. } => Retention::Snapshot,
            BufferShape::Shared { .. } => if sole_owner {
                Retention::Owned
            } else {
                Retention::Shared
            },
            _ => if sole_owner {
                Retention::Owned
            } else {
                Retention::Snapshot
            },
        }
    }
}

/// Retaining a buffer never keeps more bytes than are charged for it, and never
/// keeps memory that somebody else can write: a buffer is kept as it is only
/// where it has no other owner or cannot be written at all. A shared view,
/// whose allocation cannot be seen, is never kept.
pub proof fn law_retention_is_charged_and_private(shape: BufferShape, sole_owner: bool)
    requires
        shape.valid(),
    ensures
        ({
            let retention = Retention::of(shape, sole_owner);
            &&& retention.retained(shape) <= shape.charge()
            &&& shape.exposed() <= shape.charge()
            &&& retention == Retention::Owned ==> sole_owner
            &&& retention == Retention::Shared ==> shape is Shared
            &&& shape is SharedView ==> retention == Retention::Snapshot
        }),
{
}

/// The lengths of some buffers.
pub open spec fn lengths_of(shapes: Seq<BufferShape>) -> Seq<usize> {
    shapes.map_values(|shape: BufferShape| shape.exposed())
}

/// The charges of some buffers.
pub open spec fn charges_of(shapes: Seq<BufferShape>) -> Seq<usize> {
    shapes.map_values(|shape: BufferShape| shape.charge())
}

/// The bytes that retaining some buffers keeps, given for each of them whether
/// its only owner handed it over.
pub open spec fn retained_of(shapes: Seq<BufferShape>, sole_owners: Seq<bool>) -> Seq<usize> {
    Seq::new(
        shapes.len(),
        |i: int| Retention::of(shapes[i], sole_owners[i]).retained(shapes[i]),
    )
}

/// Retaining the buffers of a write never keeps more bytes than are charged for
/// the write, whoever else owns them.
pub proof fn law_write_retains_within_charge(shapes: Seq<BufferShape>, sole_owners: Seq<bool>)
    requires
        forall|i: int| 0 <= i < shapes.len() ==> (#[trigger] shapes[i]).valid(),
    ensures
        total(retained_of(shapes, sole_owners)) <= total(charges_of(shapes)),
    decreases shapes.len(),
{
    if shapes.len() > 0 {
        let fewer = shapes.drop_last();
        assert forall|i: int| 0 <= i < fewer.len() implies (#[trigger] fewer[i]).valid() by {
            assert(fewer[i] == shapes[i]);
        }
        law_write_retains_within_charge(fewer, sole_owners);
        law_retention_is_charged_and_private(shapes.last(), sole_owners[shapes.len() - 1]);
        assert(shapes[shapes.len() - 1].valid());
        assert(retained_of(shapes, sole_owners).drop_last() =~= retained_of(fewer, sole_owners));
        assert(charges_of(shapes).drop_last() =~= charges_of(fewer));
    }
}

/// The length and the charge of a write, or which of the two sums first
/// leaves the range of a `usize`.
pub open spec fn measured(shapes: Seq<BufferShape>) -> Result<(usize, usize), Rejection>
    decreases shapes.len(),
{
    if shapes.len() == 0 {
        Ok((0, 0))
    } else {
        match measured(shapes.drop_last()) {
            Ok((length, retained)) => if length + shapes.last().exposed() > usize::MAX {
                Err(Rejection::LengthOverflow)
            } else if retained + shapes.last().charge() > usize::MAX {
                Err(Rejection::AllocationOverflow)
            } else {
                Ok(
                    (
                        (length + shapes.last().exposed()) as usize,
                        (retained + shapes.last().charge()) as usize,
                    ),
                )
            },
            Err(rejection) => Err(rejection),
        }
    }
}

/// What is measured is the sum of the lengths and the sum of the charges, and
/// they are measured unless a sum leaves the range of a `usize`.
pub proof fn lemma_measured(shapes: Seq<BufferShape>)
    ensures
        measured(shapes) is Ok <==> total(lengths_of(shapes)) <= usize::MAX && total(
            charges_of(shapes),
        ) <= usize::MAX,
        measured(shapes) matches Ok((length, retained)) ==> length == total(lengths_of(shapes))
            && retained == total(charges_of(shapes)),
        0 <= total(lengths_of(shapes)),
        0 <= total(charges_of(shapes)),
    decreases shapes.len(),
{
    if shapes.len() > 0 {
        lemma_measured(shapes.drop_last());
        assert(lengths_of(shapes).drop_last() == lengths_of(shapes.drop_last()));
        assert(charges_of(shapes).drop_last() == charges_of(shapes.drop_last()));
    }
}

/// Once a sum has left the range of a `usize`, more buffers do not mend it.
proof fn lemma_measured_fails(shapes: Seq<BufferShape>, count: int)
    requires
        0 <= count <= shapes.len(),
        measured(shapes.take(count)) is Err,
    ensures
        measured(shapes) == measured(shapes.take(count)),
    decreases shapes.len(),
{
    if count < shapes.len() {
        assert(shapes.drop_last().take(count) == shapes.take(count));
        lemma_measured_fails(shapes.drop_last(), count);
    } else {
        assert(shapes.take(count) == shapes);
    }
}

/// Adds up the lengths and the charges of a write's buffers.
pub fn measure(shapes: &Vec<BufferShape>) -> (result: Result<(usize, usize), Rejection>)
    requires
        forall|i: int| 0 <= i < shapes@.len() ==> (#[trigger] shapes@[i]).valid(),
    ensures
        result == measured(shapes@),
{
    let mut length: usize = 0;
    let mut retained: usize = 0;
    let mut index: usize = 0;
    assert(measured(shapes@.take(0)) == Ok::<(usize, usize), Rejection>((0, 0)));
    while index < shapes.len()
        invariant
            index <= shapes@.len(),
            forall|i: int| 0 <= i < shapes@.len() ==> (#[trigger] shapes@[i]).valid(),
            measured(shapes@.take(index as int)) == Ok::<(usize, usize), Rejection>(
                (length, retained),
            ),
        decreases shapes@.len() - index,
    {
        proof {
            assert(shapes@.take(index + 1).drop_last() == shapes@.take(index as int));
        }
        let shape = &shapes[index];
        let longer = length.checked_add(shape.length());
        let larger = retained.checked_add(shape.allocation());
        match (longer, larger) {
            (None, _) => {
                proof {
                    lemma_measured_fails(shapes@, index + 1);
                }
                return Err(Rejection::LengthOverflow);
            },
            (_, None) => {
                proof {
                    lemma_measured_fails(shapes@, index + 1);
                }
                return Err(Rejection::AllocationOverflow);
            },
            (Some(longer), Some(larger)) => {
                length = longer;
                retained = larger;
            },
        }
        index = index + 1;
    }
    assert(shapes@.take(index as int) == shapes@);
    Ok((length, retained))
}

/// The lengths of a write's buffers.
pub fn lengths(shapes: &Vec<BufferShape>) -> (lengths: Vec<usize>)
    requires
        forall|i: int| 0 <= i < shapes@.len() ==> (#[trigger] shapes@[i]).valid(),
    ensures
        lengths@ == lengths_of(shapes@),
{
    let mut lengths: Vec<usize> = Vec::new();
    let mut index: usize = 0;
    while index < shapes.len()
        invariant
            index <= shapes@.len(),
            forall|i: int| 0 <= i < shapes@.len() ==> (#[trigger] shapes@[i]).valid(),
            lengths@ == lengths_of(shapes@.take(index as int)),
        decreases shapes@.len() - index,
    {
        lengths.push(shapes[index].length());
        index = index + 1;
        assert(lengths@ =~= lengths_of(shapes@.take(index as int)));
    }
    assert(shapes@.take(index as int) == shapes@);
    lengths
}

/// How many bytes each kind of buffer exposes, and how many are charged for it:
/// a view of the heap exposes its tail and is charged for its whole allocation,
/// any other buffer is charged for what it exposes.
pub proof fn law_exposed_and_charged(length: usize, allocation: usize, start: usize)
    requires
        start <= allocation,
    ensures
        (BufferShape::Heap { length }).exposed() == length,
        (BufferShape::Heap { length }).charge() == length,
        (BufferShape::Shared { length }).exposed() == length,
        (BufferShape::Shared { length }).charge() == length,
        (BufferShape::SharedView { length }).exposed() == length,
        (BufferShape::SharedView { length }).charge() == length,
        (BufferShape::Pooled { length }).exposed() == length,
        (BufferShape::Pooled { length }).charge() == length,
        (BufferShape::HeapView { allocation, start }).exposed() == allocation - start,
        (BufferShape::HeapView { allocation, start }).charge() == allocation,
{
}

/// Only a view of the heap can be malformed, and it is exactly if it starts
/// behind its allocation.
pub proof fn law_malformed_shapes(shape: BufferShape)
    ensures
        !shape.valid() <==> (shape matches BufferShape::HeapView { allocation, start } && start
            > allocation),
{
}

/// How a buffer is retained: itself where nobody else has it and it is no view
/// of shared memory, its allocation where that is shared whole, and otherwise a
/// copy.
pub proof fn law_how_buffers_are_retained(shape: BufferShape, sole_owner: bool)
    ensures
        Retention::of(shape, sole_owner) is Owned <==> sole_owner && !(shape is SharedView),
        Retention::of(shape, sole_owner) is Shared <==> !sole_owner && shape is Shared,
        Retention::of(shape, sole_owner) is Snapshot <==> shape is SharedView || (!sole_owner
            && !(shape is Shared)),
{
}

/// The lengths and charges of some buffers are those of each of them, in order.
pub proof fn law_lengths_and_charges_in_order(shapes: Seq<BufferShape>, index: int)
    requires
        0 <= index < shapes.len(),
    ensures
        lengths_of(shapes).len() == shapes.len(),
        charges_of(shapes).len() == shapes.len(),
        lengths_of(shapes)[index] == shapes[index].exposed(),
        charges_of(shapes)[index] == shapes[index].charge(),
{
}

/// The two sums of the buffers before an index can be counted.
pub open spec fn countable(shapes: Seq<BufferShape>, count: int) -> bool {
    &&& total(lengths_of(shapes.take(count))) <= usize::MAX
    &&& total(charges_of(shapes.take(count))) <= usize::MAX
}

/// Where the buffers of a write cannot be measured, the error is about the first
/// buffer with which a sum can no longer be counted: about the length where that
/// is too large, else about the allocations.
pub proof fn law_overflow_is_told_apart(shapes: Seq<BufferShape>) -> (count: int)
    requires
        measured(shapes) is Err,
    ensures
        0 <= count < shapes.len(),
        countable(shapes, count),
        measured(shapes) == Err::<(usize, usize), Rejection>(
            if total(lengths_of(shapes.take(count + 1))) > usize::MAX {
                Rejection::LengthOverflow
            } else {
                Rejection::AllocationOverflow
            },
        ),
        !countable(shapes, count + 1),
    decreases shapes.len(),
{
    let fewer = shapes.drop_last();
    lemma_measured(fewer);
    lemma_measured(shapes);
    if measured(fewer) is Err {
        let count = law_overflow_is_told_apart(fewer);
        assert(fewer.take(count) =~= shapes.take(count));
        assert(fewer.take(count + 1) =~= shapes.take(count + 1));
        count
    } else {
        let count = shapes.len() - 1;
        assert(shapes.take(count) =~= fewer);
        assert(shapes.take(count + 1) =~= shapes);
        assert(lengths_of(shapes).drop_last() =~= lengths_of(fewer));
        assert(charges_of(shapes).drop_last() =~= charges_of(fewer));
        count
    }
}

} // verus!
