//! The erased borrow types.
//!
//! [`ErasedRef`] and [`ErasedMut`] erase a borrow of a value: they reuse the
//! non-null wide layout and never release the referent, but additionally
//! expect the referenced allocation to be live for as long as the handle is
//! used.  The mutable variant's exclusivity is an expectation the caller
//! upholds, as the original borrow's region is no longer visible once
//! erased.

use vstd::prelude::*;

use crate::eptr::ErasedNonNull;
use crate::heap::{unchanged_outside, Heap};
use crate::value::TypedPtr;

verus! {

/// An erased shared borrow, referencing a (possibly variable-size) value of
/// unknown shape.  Rebuilding the typed borrow requires the caller to know
/// the shape stored behind it.
pub struct ErasedRef {
    ptr: ErasedNonNull,
}

impl ErasedRef {
    /// Address of the shape-descriptor cell this handle owns.
    pub open spec fn meta_addr(self) -> usize {
        self.inner().meta_addr()
    }

    /// The erased non-null pointer inside this handle.
    pub closed spec fn inner(self) -> ErasedNonNull {
        self.ptr
    }

    /// The handle is consistent and the referenced allocation is live.
    pub open spec fn wf(self, heap: Heap) -> bool {
        &&& self.inner().wf(heap)
        &&& heap.live(self.inner().data_of().block)
    }

    /// The typed pointer this handle erases.
    pub open spec fn ptr_of(self, heap: Heap) -> TypedPtr {
        self.inner().ptr_of(heap)
    }

    /// A change of the allocator state away from the descriptor cell and the
    /// referent leaves the handle consistent and the erased pointer
    /// unchanged.
    pub proof fn lemma_preserved(self, h1: Heap, h2: Heap, e: Set<usize>)
        requires
            self.wf(h1),
            unchanged_outside(h1, h2, e),
            !e.contains(self.meta_addr()),
            !e.contains(self.ptr_of(h1).data.block),
        ensures
            self.wf(h2),
            self.ptr_of(h2) == self.ptr_of(h1),
    {
        self.ptr.lemma_preserved(h1, h2, e);
        assert(h1.live(self.ptr.data_of().block));
    }

    /// Erase a borrow: the referenced allocation must be live.
    pub fn new(heap: &mut Heap, p: TypedPtr) -> (r: ErasedRef)
        requires
            old(heap).wf(),
            old(heap).live(p.data.block),
        ensures
            final(heap).wf(),
            r.wf(*final(heap)),
            r.ptr_of(*final(heap)) == p,
            !old(heap).live(r.meta_addr()),
            unchanged_outside(*old(heap), *final(heap), set![r.meta_addr()]),
            final(heap).spec_live_count() == old(heap).spec_live_count() + 1,
    {
        proof {
            old(heap).lemma_live_not_null(p.data.block);
        }
        ErasedRef { ptr: ErasedNonNull::new(heap, p) }
    }

    /// A fresh erased pointer to the same referent, with its own descriptor
    /// cell.
    pub fn as_ptr(&self, heap: &mut Heap) -> (e: ErasedNonNull)
        requires
            old(heap).wf(),
            self.wf(*old(heap)),
        ensures
            final(heap).wf(),
            self.wf(*final(heap)),
            e.wf(*final(heap)),
            e.ptr_of(*final(heap)) == self.ptr_of(*old(heap)),
            self.ptr_of(*final(heap)) == self.ptr_of(*old(heap)),
            !old(heap).live(e.meta_addr()),
            unchanged_outside(*old(heap), *final(heap), set![e.meta_addr()]),
            final(heap).spec_live_count() == old(heap).spec_live_count() + 1,
    {
        let p = self.ptr.reify_ptr(heap);
        let e = ErasedNonNull::new(heap, p);
        proof {
            self.ptr.lemma_wf_live(*old(heap));
            self.lemma_preserved(*old(heap), *heap, set![e.meta_addr()]);
        }
        e
    }

    /// Rebuild the typed borrow stored in this handle.
    pub fn reify_ref(&self, heap: &Heap) -> (p: TypedPtr)
        requires
            heap.wf(),
            self.wf(*heap),
        ensures
            p == self.ptr_of(*heap),
            heap.live(p.data.block),
    {
        self.ptr.reify_ptr(heap)
    }

    /// Tear the handle down: only the descriptor cell is released; the
    /// referenced value is untouched.
    pub fn destroy(self, heap: &mut Heap)
        requires
            old(heap).wf(),
            self.wf(*old(heap)),
        ensures
            final(heap).wf(),
            !final(heap).live(self.meta_addr()),
            unchanged_outside(*old(heap), *final(heap), set![self.meta_addr()]),
            final(heap).spec_live_count() + 1 == old(heap).spec_live_count(),
    {
        self.ptr.destroy(heap)
    }
}

/// An erased exclusive borrow, referencing a (possibly variable-size) value
/// of unknown shape.  Exclusive access is an expectation the caller upholds.
pub struct ErasedMut {
    ptr: ErasedNonNull,
}

impl ErasedMut {
    /// Address of the shape-descriptor cell this handle owns.
    pub open spec fn meta_addr(self) -> usize {
        self.inner().meta_addr()
    }

    /// The erased non-null pointer inside this handle.
    pub closed spec fn inner(self) -> ErasedNonNull {
        self.ptr
    }

    /// The handle is consistent and the referenced allocation is live.
    pub open spec fn wf(self, heap: Heap) -> bool {
        &&& self.inner().wf(heap)
        &&& heap.live(self.inner().data_of().block)
    }

    /// The typed pointer this handle erases.
    pub open spec fn ptr_of(self, heap: Heap) -> TypedPtr {
        self.inner().ptr_of(heap)
    }

    /// A change of the allocator state away from the descriptor cell and the
    /// referent leaves the handle consistent and the erased pointer
    /// unchanged.
    pub proof fn lemma_preserved(self, h1: Heap, h2: Heap, e: Set<usize>)
        requires
            self.wf(h1),
            unchanged_outside(h1, h2, e),
            !e.contains(self.meta_addr()),
            !e.contains(self.ptr_of(h1).data.block),
        ensures
            self.wf(h2),
            self.ptr_of(h2) == self.ptr_of(h1),
    {
        self.ptr.lemma_preserved(h1, h2, e);
        assert(h1.live(self.ptr.data_of().block));
    }

    /// Erase an exclusive borrow: the referenced allocation must be live.
    pub fn new(heap: &mut Heap, p: TypedPtr) -> (r: ErasedMut)
        requires
            old(heap).wf(),
            old(heap).live(p.data.block),
        ensures
            final(heap).wf(),
            r.wf(*final(heap)),
            r.ptr_of(*final(heap)) == p,
            !old(heap).live(r.meta_addr()),
            unchanged_outside(*old(heap), *final(heap), set![r.meta_addr()]),
            final(heap).spec_live_count() == old(heap).spec_live_count() + 1,
    {
        proof {
            old(heap).lemma_live_not_null(p.data.block);
        }
        ErasedMut { ptr: ErasedNonNull::new(heap, p) }
    }

    /// A fresh erased pointer to the same referent, with its own descriptor
    /// cell.
    pub fn as_ptr(&self, heap: &mut Heap) -> (e: ErasedNonNull)
        requires
            old(heap).wf(),
            self.wf(*old(heap)),
        ensures
            final(heap).wf(),
            self.wf(*final(heap)),
            e.wf(*final(heap)),
            e.ptr_of(*final(heap)) == self.ptr_of(*old(heap)),
            self.ptr_of(*final(heap)) == self.ptr_of(*old(heap)),
            !old(heap).live(e.meta_addr()),
            unchanged_outside(*old(heap), *final(heap), set![e.meta_addr()]),
            final(heap).spec_live_count() == old(heap).spec_live_count() + 1,
    {
        let p = self.ptr.reify_ptr(heap);
        let e = ErasedNonNull::new(heap, p);
        proof {
            self.ptr.lemma_wf_live(*old(heap));
            self.lemma_preserved(*old(heap), *heap, set![e.meta_addr()]);
        }
        e
    }

    /// Rebuild the typed borrow stored in this handle, for writing through;
    /// the handle is taken exclusively for the duration of the call.
    pub fn reify_ref(&mut self, heap: &Heap) -> (p: TypedPtr)
        requires
            heap.wf(),
            old(self).wf(*heap),
        ensures
            *final(self) == *old(self),
            p == old(self).ptr_of(*heap),
            heap.live(p.data.block),
    {
        self.ptr.reify_ptr(heap)
    }

    /// Tear the handle down: only the descriptor cell is released; the
    /// referenced value is untouched.
    pub fn destroy(self, heap: &mut Heap)
        requires
            old(heap).wf(),
            self.wf(*old(heap)),
        ensures
            final(heap).wf(),
            !final(heap).live(self.meta_addr()),
            unchanged_outside(*old(heap), *final(heap), set![self.meta_addr()]),
            final(heap).spec_live_count() + 1 == old(heap).spec_live_count(),
    {
        self.ptr.destroy(heap)
    }
}

} // verus!
