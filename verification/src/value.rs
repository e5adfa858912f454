//! Concretely typed values and typed pointers.
//!
//! Erasure starts from a concretely typed owned value or pointer, and
//! reification returns to one.  To the erasure layer a typed value is its raw
//! bytes together with its shape descriptor and alignment; a typed pointer is
//! a thin data pointer paired with the shape descriptor.  The helpers here
//! model the ordinary owned-allocation operations the handles are built from:
//! placing a value into a fresh allocation, reading it back through a typed
//! pointer, and releasing the allocation.

use vstd::prelude::*;

use crate::heap::{unchanged_outside, Heap};
use crate::shape::Shape;

verus! {

/// A thin data pointer: an allocation address plus a byte offset into it.
/// The pointer with block address `0` is the null pointer.
#[derive(Clone, Copy, PartialEq, Eq, Structural, Debug)]
pub struct DataPtr {
    /// Address of the allocation pointed into.
    pub block: usize,
    /// Byte offset within that allocation.
    pub off: usize,
}

/// A typed pointer: a thin data pointer together with the shape descriptor
/// needed to interpret the pointed-to value.
#[derive(Clone, Copy, PartialEq, Eq, Structural, Debug)]
pub struct TypedPtr {
    /// Where the value's bytes are.
    pub data: DataPtr,
    /// How to interpret them.
    pub shape: Shape,
}

/// A concretely typed owned value, as the erasure layer sees it: its raw
/// bytes, its shape descriptor and its alignment requirement.
pub struct ValueRepr {
    /// The value's raw bytes; the length is the value's size.
    pub bytes: Vec<u8>,
    /// The value's shape descriptor.
    pub shape: Shape,
    /// The value's alignment requirement.
    pub align: usize,
}

/// The mathematical content of a typed value: what contracts compare.
pub ghost struct ValueModel {
    /// The value's bytes.
    pub bytes: Seq<u8>,
    /// The value's shape descriptor.
    pub shape: Shape,
    /// The value's alignment requirement.
    pub align: usize,
}

impl View for ValueRepr {
    type V = ValueModel;

    open spec fn view(&self) -> ValueModel {
        ValueModel { bytes: self.bytes@, shape: self.shape, align: self.align }
    }
}

impl ValueRepr {
    /// A value's alignment is positive.
    pub open spec fn wf(self) -> bool {
        self.align >= 1
    }
}

/// Allocate a fresh one-element cell holding the encoding of a shape
/// descriptor, as every wide handle does at construction.
pub(crate) fn alloc_shape_cell(heap: &mut Heap, s: Shape) -> (addr: usize)
    requires
        old(heap).wf(),
    ensures
        final(heap).wf(),
        addr != 0,
        !old(heap).live(addr),
        final(heap).live(addr),
        final(heap).bytes_at(addr) == crate::shape::shape_enc(s),
        crate::shape::shape_dec(final(heap).bytes_at(addr)) == Some(s),
        unchanged_outside(*old(heap), *final(heap), set![addr]),
        final(heap).spec_live_count() == old(heap).spec_live_count() + 1,
{
    let enc = crate::shape::encode_shape(s);
    let addr = heap.allocate(crate::shape::SHAPE_BYTES, 1);
    let ghost mid = *heap;
    heap.write_range(addr, 0, &enc);
    proof {
        assert(heap.bytes_at(addr) =~= crate::shape::shape_enc(s));
        crate::shape::lemma_shape_roundtrip(s);
        crate::heap::lemma_unchanged_trans(*old(heap), mid, *heap, set![addr]);
    }
    addr
}

/// Place an owned value into a fresh allocation and return the typed pointer
/// that owns it.
pub fn store_value(heap: &mut Heap, v: ValueRepr) -> (p: TypedPtr)
    requires
        old(heap).wf(),
        v.wf(),
    ensures
        final(heap).wf(),
        p.data.block != 0,
        p.data.off == 0,
        p.shape == v.shape,
        !old(heap).live(p.data.block),
        final(heap).live(p.data.block),
        final(heap).bytes_at(p.data.block) == v.bytes@,
        final(heap).align_at(p.data.block) == v.align,
        unchanged_outside(*old(heap), *final(heap), set![p.data.block]),
        final(heap).spec_live_count() == old(heap).spec_live_count() + 1,
{
    let addr = heap.allocate(v.bytes.len(), v.align);
    let ghost mid = *heap;
    heap.write_range(addr, 0, &v.bytes);
    proof {
        assert(heap.bytes_at(addr) =~= v.bytes@);
        crate::heap::lemma_unchanged_trans(*old(heap), mid, *heap, set![addr]);
    }
    TypedPtr { data: DataPtr { block: addr, off: 0 }, shape: v.shape }
}

/// Read the owned value a typed pointer refers to, without consuming the
/// allocation.
pub fn load_value(heap: &Heap, p: TypedPtr) -> (v: ValueRepr)
    requires
        heap.wf(),
        heap.live(p.data.block),
        p.data.off == 0,
    ensures
        v@ == (ValueModel {
            bytes: heap.bytes_at(p.data.block),
            shape: p.shape,
            align: heap.align_at(p.data.block),
        }),
        v.wf(),
{
    let size = heap.block_size(p.data.block);
    let align = heap.block_align(p.data.block);
    let bytes = heap.read_range(p.data.block, 0, size);
    proof {
        assert(heap.bytes_at(p.data.block).subrange(0, heap.size_at(p.data.block) as int)
            =~= heap.bytes_at(p.data.block));
    }
    ValueRepr { bytes, shape: p.shape, align }
}

/// Release the allocation a whole-block typed pointer owns: the ordinary
/// destruction path of a typed owned value.
pub fn free_value(heap: &mut Heap, p: TypedPtr)
    requires
        old(heap).wf(),
        old(heap).live(p.data.block),
        p.data.off == 0,
    ensures
        final(heap).wf(),
        !final(heap).live(p.data.block),
        unchanged_outside(*old(heap), *final(heap), set![p.data.block]),
        final(heap).spec_live_count() + 1 == old(heap).spec_live_count(),
{
    let size = heap.block_size(p.data.block);
    let align = heap.block_align(p.data.block);
    heap.deallocate(p.data.block, size, align);
}

} // verus!
