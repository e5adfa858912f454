//! The non-owning erased pointer family.
//!
//! [`ErasedPtr`] and [`ErasedNonNull`] carry a data pointer to a value the
//! handle does not own, plus a separately allocated cell with the value's
//! shape descriptor, so a typed pointer can be rebuilt on demand.  Their
//! finalizer releases only the descriptor cell: the referenced value is
//! never touched.  A dangling data pointer supplied at construction remains
//! a caller error, surfaced only when the reified pointer is dereferenced.

use vstd::prelude::*;

use crate::heap::{unchanged_outside, Heap};
use crate::shape::{decode_shape, shape_dec, Fin, Shape};
use crate::value::{DataPtr, TypedPtr};

verus! {

/// The finalizer of the non-owning pointer family: release the
/// shape-descriptor cell and nothing else.
fn drop_impl(heap: &mut Heap, meta: usize)
    requires
        old(heap).wf(),
        old(heap).live(meta),
    ensures
        final(heap).wf(),
        !final(heap).live(meta),
        unchanged_outside(*old(heap), *final(heap), set![meta]),
        final(heap).spec_live_count() + 1 == old(heap).spec_live_count(),
{
    let size = heap.block_size(meta);
    let align = heap.block_align(meta);
    heap.deallocate(meta, size, align);
}

/// Read the shape descriptor out of the cell at `meta`.
fn read_shape_cell(heap: &Heap, meta: usize) -> (s: Shape)
    requires
        heap.wf(),
        heap.live(meta),
        shape_dec(heap.bytes_at(meta)) is Some,
    ensures
        Some(s) == shape_dec(heap.bytes_at(meta)),
{
    let len = heap.block_size(meta);
    let enc = heap.read_range(meta, 0, len);
    proof {
        assert(heap.bytes_at(meta).subrange(0, heap.size_at(meta) as int) =~= heap.bytes_at(
            meta,
        ));
    }
    decode_shape(&enc)
}

/// An erased pointer, pointing to a (possibly variable-size) value of
/// unknown shape.  The data pointer may be null or dangling; rebuilding a
/// typed pointer requires the caller to know the shape stored behind it.
#[derive(Debug)]
pub struct ErasedPtr {
    data: DataPtr,
    meta: usize,
    fin: Fin,
}

impl ErasedPtr {
    /// The erased data pointer.
    pub closed spec fn data_of(self) -> DataPtr {
        self.data
    }

    /// Address of the shape-descriptor cell this handle owns.
    pub closed spec fn meta_addr(self) -> usize {
        self.meta
    }

    /// The handle is consistent with the allocator state: the descriptor
    /// cell is live and holds a valid shape descriptor, and the finalizer is
    /// the one that releases only that cell.
    pub closed spec fn wf(self, heap: Heap) -> bool {
        &&& heap.live(self.meta)
        &&& shape_dec(heap.bytes_at(self.meta)) is Some
        &&& self.fin == Fin::ReleaseCellOnly
    }

    /// The typed pointer this handle erases: its data pointer together with
    /// the stored shape descriptor.
    pub open spec fn ptr_of(self, heap: Heap) -> TypedPtr {
        TypedPtr {
            data: self.data_of(),
            shape: shape_dec(heap.bytes_at(self.meta_addr()))->Some_0,
        }
    }

    /// A change of the allocator state away from the descriptor cell leaves
    /// the handle consistent and the erased pointer unchanged.
    pub proof fn lemma_preserved(self, h1: Heap, h2: Heap, e: Set<usize>)
        requires
            self.wf(h1),
            unchanged_outside(h1, h2, e),
            !e.contains(self.meta_addr()),
        ensures
            self.wf(h2),
            self.ptr_of(h2) == self.ptr_of(h1),
    {
        assert(h1.live(self.meta));
    }

    /// Erase a typed pointer: record its data pointer and allocate a cell
    /// for its shape descriptor.  The pointer may be null or dangling.
    pub fn new(heap: &mut Heap, p: TypedPtr) -> (e: ErasedPtr)
        requires
            old(heap).wf(),
        ensures
            final(heap).wf(),
            e.wf(*final(heap)),
            e.ptr_of(*final(heap)) == p,
            !old(heap).live(e.meta_addr()),
            unchanged_outside(*old(heap), *final(heap), set![e.meta_addr()]),
            final(heap).spec_live_count() == old(heap).spec_live_count() + 1,
    {
        let meta = crate::value::alloc_shape_cell(heap, p.shape);
        ErasedPtr { data: p.data, meta, fin: Fin::ReleaseCellOnly }
    }

    /// The raw data pointer this handle carries.
    pub fn data_ptr(&self) -> (d: DataPtr)
        ensures
            d == self.data_of(),
    {
        self.data
    }

    /// The raw data pointer, for writing through.
    pub fn data_ptr_mut(&self) -> (d: DataPtr)
        ensures
            d == self.data_of(),
    {
        self.data
    }

    /// The raw pointer to the shape-descriptor cell.
    pub fn raw_meta_ptr(&self) -> (addr: usize)
        ensures
            addr == self.meta_addr(),
    {
        self.meta
    }

    /// Rebuild the typed pointer stored in this handle.
    pub fn reify_ptr(&self, heap: &Heap) -> (p: TypedPtr)
        requires
            heap.wf(),
            self.wf(*heap),
        ensures
            p == self.ptr_of(*heap),
    {
        let shape = read_shape_cell(heap, self.meta);
        TypedPtr { data: self.data, shape }
    }

    /// Rebuild the typed pointer stored in this handle, for writing through.
    pub fn reify_ptr_mut(&self, heap: &Heap) -> (p: TypedPtr)
        requires
            heap.wf(),
            self.wf(*heap),
        ensures
            p == self.ptr_of(*heap),
    {
        let shape = read_shape_cell(heap, self.meta);
        TypedPtr { data: self.data, shape }
    }

    /// Tear the handle down: its finalizer releases the descriptor cell
    /// only; the referenced value is untouched.
    pub fn destroy(self, heap: &mut Heap)
        requires
            old(heap).wf(),
            self.wf(*old(heap)),
        ensures
            final(heap).wf(),
            !final(heap).live(self.meta_addr()),
            unchanged_outside(*old(heap), *final(heap), set![self.meta_addr()]),
            final(heap).spec_live_count() + 1 == old(heap).spec_live_count(),
    {
        match self.fin {
            Fin::ReleaseCellOnly => drop_impl(heap, self.meta),
            _ => {
                proof {
                    assert(false);
                }
            },
        }
    }
}

/// An erased non-null pointer: like [`ErasedPtr`], but the data pointer is
/// guaranteed non-null.
#[derive(Debug)]
pub struct ErasedNonNull {
    data: DataPtr,
    meta: usize,
    fin: Fin,
}

impl ErasedNonNull {
    /// The erased data pointer.
    pub closed spec fn data_of(self) -> DataPtr {
        self.data
    }

    /// Address of the shape-descriptor cell this handle owns.
    pub closed spec fn meta_addr(self) -> usize {
        self.meta
    }

    /// As [`ErasedPtr::wf`], and the data pointer is non-null.
    pub closed spec fn wf(self, heap: Heap) -> bool {
        &&& heap.live(self.meta)
        &&& shape_dec(heap.bytes_at(self.meta)) is Some
        &&& self.fin == Fin::ReleaseCellOnly
        &&& self.data.block != 0
    }

    /// The typed pointer this handle erases.
    pub open spec fn ptr_of(self, heap: Heap) -> TypedPtr {
        TypedPtr {
            data: self.data_of(),
            shape: shape_dec(heap.bytes_at(self.meta_addr()))->Some_0,
        }
    }

    /// A consistent handle's descriptor cell is live, and its data pointer
    /// is non-null.
    pub proof fn lemma_wf_live(self, heap: Heap)
        requires
            self.wf(heap),
        ensures
            heap.live(self.meta_addr()),
            self.data_of().block != 0,
    {
    }

    /// A change of the allocator state away from the descriptor cell leaves
    /// the handle consistent and the erased pointer unchanged.
    pub proof fn lemma_preserved(self, h1: Heap, h2: Heap, e: Set<usize>)
        requires
            self.wf(h1),
            unchanged_outside(h1, h2, e),
            !e.contains(self.meta_addr()),
        ensures
            self.wf(h2),
            self.ptr_of(h2) == self.ptr_of(h1),
    {
        assert(h1.live(self.meta));
    }

    /// Erase a non-null typed pointer: record its data pointer and allocate
    /// a cell for its shape descriptor.
    pub fn new(heap: &mut Heap, p: TypedPtr) -> (e: ErasedNonNull)
        requires
            old(heap).wf(),
            p.data.block != 0,
        ensures
            final(heap).wf(),
            e.wf(*final(heap)),
            e.ptr_of(*final(heap)) == p,
            !old(heap).live(e.meta_addr()),
            unchanged_outside(*old(heap), *final(heap), set![e.meta_addr()]),
            final(heap).spec_live_count() == old(heap).spec_live_count() + 1,
    {
        let meta = crate::value::alloc_shape_cell(heap, p.shape);
        ErasedNonNull { data: p.data, meta, fin: Fin::ReleaseCellOnly }
    }

    /// The raw data pointer this handle carries; it is non-null.
    pub fn data_ptr(&self) -> (d: DataPtr)
        ensures
            d == self.data_of(),
    {
        self.data
    }

    /// The raw pointer to the shape-descriptor cell.
    pub fn raw_meta_ptr(&self) -> (addr: usize)
        ensures
            addr == self.meta_addr(),
    {
        self.meta
    }

    /// Rebuild the typed pointer stored in this handle.
    pub fn reify_ptr(&self, heap: &Heap) -> (p: TypedPtr)
        requires
            heap.wf(),
            self.wf(*heap),
        ensures
            p == self.ptr_of(*heap),
            p.data.block != 0,
    {
        let shape = read_shape_cell(heap, self.meta);
        TypedPtr { data: self.data, shape }
    }

    /// Tear the handle down: its finalizer releases the descriptor cell
    /// only; the referenced value is untouched.
    pub fn destroy(self, heap: &mut Heap)
        requires
            old(heap).wf(),
            self.wf(*old(heap)),
        ensures
            final(heap).wf(),
            !final(heap).live(self.meta_addr()),
            unchanged_outside(*old(heap), *final(heap), set![self.meta_addr()]),
            final(heap).spec_live_count() + 1 == old(heap).spec_live_count(),
    {
        match self.fin {
            Fin::ReleaseCellOnly => drop_impl(heap, self.meta),
            _ => {
                proof {
                    assert(false);
                }
            },
        }
    }
}

} // verus!
