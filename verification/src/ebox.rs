//! The wide owning container: a simple erased box of three fields.
//!
//! An [`ErasedBox`] owns a value of unknown shape.  The value's bytes live in
//! their own allocation; the shape descriptor is kept in a second, separately
//! allocated cell, so the handle itself stays the same width whether or not
//! the value needs shape information.  The finalizer captured at construction
//! releases exactly those two allocations.

use vstd::prelude::*;

use crate::heap::{lemma_unchanged_trans, splice, unchanged_outside, Heap};
use crate::shape::{decode_shape, shape_dec, Fin, Shape};
use crate::value::{DataPtr, TypedPtr, ValueModel, ValueRepr};

verus! {

/// Rebuild the typed pointer of an erased pair: the data address together
/// with the shape descriptor stored in the cell at `meta`.
fn reify_ptr(heap: &Heap, data: usize, meta: usize) -> (p: TypedPtr)
    requires
        heap.wf(),
        heap.live(meta),
        shape_dec(heap.bytes_at(meta)) is Some,
    ensures
        p.data.block == data,
        p.data.off == 0,
        Some(p.shape) == shape_dec(heap.bytes_at(meta)),
{
    let len = heap.block_size(meta);
    let enc = heap.read_range(meta, 0, len);
    proof {
        assert(heap.bytes_at(meta).subrange(0, heap.size_at(meta) as int) =~= heap.bytes_at(
            meta,
        ));
    }
    let shape = decode_shape(&enc);
    TypedPtr { data: DataPtr { block: data, off: 0 }, shape }
}

/// Rebuild the typed pointer of an erased pair and release the descriptor
/// cell; ownership of the value's allocation escapes whole in the returned
/// pointer.
fn reify_box(heap: &mut Heap, data: usize, meta: usize) -> (p: TypedPtr)
    requires
        old(heap).wf(),
        old(heap).live(meta),
        old(heap).live(data),
        data != meta,
        shape_dec(old(heap).bytes_at(meta)) is Some,
    ensures
        final(heap).wf(),
        p.data.block == data,
        p.data.off == 0,
        Some(p.shape) == shape_dec(old(heap).bytes_at(meta)),
        final(heap).live(data),
        final(heap).bytes_at(data) == old(heap).bytes_at(data),
        final(heap).align_at(data) == old(heap).align_at(data),
        !final(heap).live(meta),
        unchanged_outside(*old(heap), *final(heap), set![meta]),
        final(heap).spec_live_count() + 1 == old(heap).spec_live_count(),
{
    let p = reify_ptr(heap, data, meta);
    let size = heap.block_size(meta);
    let align = heap.block_align(meta);
    heap.deallocate(meta, size, align);
    p
}

/// The finalizer of the wide owning container: rebuild the typed pointer,
/// release the descriptor cell, then run the value's ordinary destruction
/// path, releasing its allocation.
pub fn drop_erased(heap: &mut Heap, data: usize, meta: usize)
    requires
        old(heap).wf(),
        old(heap).live(meta),
        old(heap).live(data),
        data != meta,
        shape_dec(old(heap).bytes_at(meta)) is Some,
    ensures
        final(heap).wf(),
        !final(heap).live(data),
        !final(heap).live(meta),
        unchanged_outside(*old(heap), *final(heap), set![data, meta]),
        final(heap).spec_live_count() + 2 == old(heap).spec_live_count(),
{
    let p = reify_box(heap, data, meta);
    let ghost mid = *heap;
    crate::value::free_value(heap, p);
    proof {
        crate::heap::lemma_unchanged_widen(*old(heap), mid, set![meta], set![data, meta]);
        crate::heap::lemma_unchanged_widen(mid, *heap, set![data], set![data, meta]);
        lemma_unchanged_trans(*old(heap), mid, *heap, set![data, meta]);
    }
}

/// An erased box, storing a (possibly variable-size) value of unknown shape.
/// Reifying it back into a typed pointer or owned value requires the caller
/// to know the shape stored in the box.
///
/// This handle is always three fields wide, even for fixed-size values, as
/// the shape descriptor lives in a separately allocated cell.  For a handle
/// of a single field, see [`ThinErasedBox`](crate::ThinErasedBox).
pub struct ErasedBox {
    data: usize,
    meta: usize,
    fin: Fin,
}

impl ErasedBox {
    /// Address of the allocation holding the value's bytes.
    pub closed spec fn data_addr(self) -> usize {
        self.data
    }

    /// Address of the separately allocated shape-descriptor cell.
    pub closed spec fn meta_addr(self) -> usize {
        self.meta
    }

    /// The handle is consistent with the allocator state: both allocations
    /// are live and distinct, the cell holds a valid shape descriptor, and
    /// the finalizer is the one that releases both.
    pub closed spec fn wf(self, heap: Heap) -> bool {
        &&& heap.live(self.data)
        &&& heap.live(self.meta)
        &&& self.data != self.meta
        &&& shape_dec(heap.bytes_at(self.meta)) is Some
        &&& self.fin == Fin::ReleaseValueAndCell
    }

    /// The shape descriptor stored in the cell.
    pub open spec fn shape_of(self, heap: Heap) -> Shape {
        shape_dec(heap.bytes_at(self.meta_addr()))->Some_0
    }

    /// The value the box holds: its bytes, shape and alignment.
    pub open spec fn value_of(self, heap: Heap) -> ValueModel {
        ValueModel {
            bytes: heap.bytes_at(self.data_addr()),
            shape: self.shape_of(heap),
            align: heap.align_at(self.data_addr()),
        }
    }

    /// A consistent box's two allocations are live and distinct.
    pub proof fn lemma_wf_live(self, heap: Heap)
        requires
            self.wf(heap),
        ensures
            heap.live(self.data_addr()),
            heap.live(self.meta_addr()),
            self.data_addr() != self.meta_addr(),
    {
    }

    /// A change of the allocator state away from both of the box's
    /// allocations leaves the box consistent and its value unchanged.
    pub proof fn lemma_preserved(self, h1: Heap, h2: Heap, e: Set<usize>)
        requires
            self.wf(h1),
            unchanged_outside(h1, h2, e),
            !e.contains(self.data_addr()),
            !e.contains(self.meta_addr()),
        ensures
            self.wf(h2),
            self.value_of(h2) == self.value_of(h1),
    {
        assert(h1.live(self.data));
        assert(h1.live(self.meta));
    }

    /// A write through a mutable reification of the box is observed by every
    /// later reification: the box stays consistent and now holds the written
    /// bytes at the written range.
    pub proof fn lemma_write_visible(self, h1: Heap, h2: Heap, off: int, data: Seq<u8>)
        requires
            self.wf(h1),
            0 <= off,
            off + data.len() <= h1.size_at(self.data_addr()),
            unchanged_outside(h1, h2, set![self.data_addr()]),
            h2.live(self.data_addr()),
            h2.align_at(self.data_addr()) == h1.align_at(self.data_addr()),
            h2.bytes_at(self.data_addr()) == splice(h1.bytes_at(self.data_addr()), off, data),
        ensures
            self.wf(h2),
            self.value_of(h2).shape == self.value_of(h1).shape,
            self.value_of(h2).align == self.value_of(h1).align,
            self.value_of(h2).bytes == splice(self.value_of(h1).bytes, off, data),
            self.value_of(h2).bytes.subrange(off, off + data.len() as int) == data,
    {
        assert(h1.live(self.meta));
        crate::heap::lemma_splice_read(h1.bytes_at(self.data), off, data);
    }

    /// Erase an owned value: place it into a fresh allocation and erase that
    /// allocation's typed pointer.
    pub fn new(heap: &mut Heap, v: ValueRepr) -> (b: ErasedBox)
        requires
            old(heap).wf(),
            v.wf(),
        ensures
            final(heap).wf(),
            b.wf(*final(heap)),
            b.value_of(*final(heap)) == v@,
            !old(heap).live(b.data_addr()),
            !old(heap).live(b.meta_addr()),
            unchanged_outside(
                *old(heap),
                *final(heap),
                set![b.data_addr(), b.meta_addr()],
            ),
            final(heap).spec_live_count() == old(heap).spec_live_count() + 2,
    {
        let ghost h0 = *heap;
        let p = crate::value::store_value(heap, v);
        let ghost mid = *heap;
        let b = Self::from_raw(heap, p);
        proof {
            crate::heap::lemma_unchanged_widen(
                h0,
                mid,
                set![p.data.block],
                set![b.data_addr(), b.meta_addr()],
            );
            crate::heap::lemma_unchanged_widen(
                mid,
                *heap,
                set![b.meta_addr()],
                set![b.data_addr(), b.meta_addr()],
            );
            lemma_unchanged_trans(h0, mid, *heap, set![b.data_addr(), b.meta_addr()]);
        }
        b
    }

    /// Erase the typed pointer of an existing owned allocation: allocate a
    /// cell for its shape descriptor and capture the finalizer.  The box
    /// takes over ownership of the allocation.
    pub fn from_raw(heap: &mut Heap, p: TypedPtr) -> (b: ErasedBox)
        requires
            old(heap).wf(),
            old(heap).live(p.data.block),
            p.data.off == 0,
        ensures
            final(heap).wf(),
            b.wf(*final(heap)),
            b.data_addr() == p.data.block,
            !old(heap).live(b.meta_addr()),
            b.value_of(*final(heap)) == (ValueModel {
                bytes: old(heap).bytes_at(p.data.block),
                shape: p.shape,
                align: old(heap).align_at(p.data.block),
            }),
            unchanged_outside(*old(heap), *final(heap), set![b.meta_addr()]),
            final(heap).spec_live_count() == old(heap).spec_live_count() + 1,
    {
        let meta = crate::value::alloc_shape_cell(heap, p.shape);
        ErasedBox { data: p.data.block, meta, fin: Fin::ReleaseValueAndCell }
    }

    /// The raw data pointer of the contained value.
    pub fn data_ptr(&self) -> (addr: usize)
        ensures
            addr == self.data_addr(),
    {
        self.data
    }

    /// The raw pointer to the shape-descriptor cell.
    pub fn raw_meta_ptr(&self) -> (addr: usize)
        ensures
            addr == self.meta_addr(),
    {
        self.meta
    }

    /// Rebuild the typed pointer to the value stored in this box, without
    /// transferring ownership.
    pub fn reify_ptr(&self, heap: &Heap) -> (p: TypedPtr)
        requires
            heap.wf(),
            self.wf(*heap),
        ensures
            p.data.block == self.data_addr(),
            p.data.off == 0,
            p.shape == self.shape_of(*heap),
    {
        reify_ptr(heap, self.data, self.meta)
    }

    /// Convert the box back into the typed owned allocation it was erased
    /// from.  This consumes the box: the descriptor cell is released and the
    /// box's own teardown is skipped, as ownership of the value escapes whole
    /// in the returned pointer.
    pub fn reify_box(self, heap: &mut Heap) -> (p: TypedPtr)
        requires
            old(heap).wf(),
            self.wf(*old(heap)),
        ensures
            final(heap).wf(),
            p.data.block == self.data_addr(),
            p.data.off == 0,
            p.shape == self.shape_of(*old(heap)),
            final(heap).live(p.data.block),
            final(heap).bytes_at(p.data.block) == self.value_of(*old(heap)).bytes,
            final(heap).align_at(p.data.block) == self.value_of(*old(heap)).align,
            !final(heap).live(self.meta_addr()),
            unchanged_outside(*old(heap), *final(heap), set![self.meta_addr()]),
            final(heap).spec_live_count() + 1 == old(heap).spec_live_count(),
    {
        reify_box(heap, self.data, self.meta)
    }

    /// Read the value stored in this box, as through a shared reference.
    pub fn reify_ref(&self, heap: &Heap) -> (v: ValueRepr)
        requires
            heap.wf(),
            self.wf(*heap),
        ensures
            v@ == self.value_of(*heap),
            v.wf(),
    {
        let p = self.reify_ptr(heap);
        crate::value::load_value(heap, p)
    }

    /// Rebuild the typed pointer to the value for writing, as through an
    /// exclusive reference; a write through it is seen by every later
    /// reification (see [`ErasedBox::lemma_write_visible`]).
    pub fn reify_mut(&mut self, heap: &Heap) -> (p: TypedPtr)
        requires
            heap.wf(),
            old(self).wf(*heap),
        ensures
            *final(self) == *old(self),
            p.data.block == old(self).data_addr(),
            p.data.off == 0,
            p.shape == old(self).shape_of(*heap),
    {
        reify_ptr(heap, self.data, self.meta)
    }

    /// Tear the box down: invoke the captured finalizer, which releases the
    /// value's allocation and the descriptor cell, each exactly once.
    pub fn destroy(self, heap: &mut Heap)
        requires
            old(heap).wf(),
            self.wf(*old(heap)),
        ensures
            final(heap).wf(),
            !final(heap).live(self.data_addr()),
            !final(heap).live(self.meta_addr()),
            unchanged_outside(
                *old(heap),
                *final(heap),
                set![self.data_addr(), self.meta_addr()],
            ),
            final(heap).spec_live_count() + 2 == old(heap).spec_live_count(),
    {
        match self.fin {
            Fin::ReleaseValueAndCell => drop_erased(heap, self.data, self.meta),
            _ => {
                proof {
                    assert(false);
                }
            },
        }
    }
}

} // verus!
