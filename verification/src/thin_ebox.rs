//! The thin owning container: an erased box of a single field.
//!
//! A [`ThinErasedBox`] owns a value of unknown shape, like
//! [`ErasedBox`](crate::ErasedBox), but keeps everything — finalizer header,
//! shape descriptor and the value's bytes — in one combined allocation
//! addressed by a single pointer.  Construction computes the combined layout
//! at runtime (see [`crate::layout`]), relocates the value's raw bytes into
//! the record and discards the source allocation without running any
//! destruction step on it; teardown reads the finalizer back out of the
//! header and releases the single allocation.

use vstd::prelude::*;

use crate::heap::{
    lemma_splice_read, lemma_unchanged_trans, lemma_unchanged_widen, splice, unchanged_outside,
    Heap,
};
use crate::layout::{
    combined_layout, spec_combined_align, spec_combined_size, spec_val_off, HEADER_BYTES,
};
use crate::shape::{
    decode_shape, encode_fin, encode_shape, fin_code, fin_from_code, lemma_shape_roundtrip,
    lemma_u64_le_roundtrip, shape_dec, u64_from_le, u64_le, u64_read_le, u64_to_le,
    Fin, Shape, SHAPE_BYTES,
};
use crate::value::{DataPtr, TypedPtr, ValueModel, ValueRepr};

verus! {

/// The header of a combined record: the finalizer and the value's size and
/// alignment, which the finalizer was specialized to at construction.
#[derive(Clone, Copy, PartialEq, Eq, Structural, Debug)]
pub struct CommonInnerData {
    /// The finalizer stored in the record.
    pub fin: Fin,
    /// Size in bytes of the value stored behind the header.
    pub val_size: usize,
    /// Alignment of the value stored behind the header.
    pub val_align: usize,
}

/// The 24-byte encoding of a header: finalizer code, value size, value
/// alignment, eight little-endian bytes each.
pub open spec fn header_enc(c: CommonInnerData) -> Seq<u8> {
    u64_le(fin_code(c.fin)) + u64_le(c.val_size as u64) + u64_le(c.val_align as u64)
}

/// The header encoded in `b`, if `b` is a valid encoding.
pub open spec fn header_dec(b: Seq<u8>) -> Option<CommonInnerData> {
    if b.len() == HEADER_BYTES {
        let f = fin_from_code(u64_from_le(b.subrange(0, 8)));
        let vs = u64_from_le(b.subrange(8, 16));
        let va = u64_from_le(b.subrange(16, 24));
        if f is Some && vs <= usize::MAX && va <= usize::MAX {
            Some(
                CommonInnerData { fin: f->Some_0, val_size: vs as usize, val_align: va as usize },
            )
        } else {
            None
        }
    } else {
        None
    }
}

/// Decoding an encoded header yields the header back.
pub proof fn lemma_header_roundtrip(c: CommonInnerData)
    ensures
        header_dec(header_enc(c)) == Some(c),
{
    assert(header_enc(c).subrange(0, 8) =~= u64_le(fin_code(c.fin)));
    assert(header_enc(c).subrange(8, 16) =~= u64_le(c.val_size as u64));
    assert(header_enc(c).subrange(16, 24) =~= u64_le(c.val_align as u64));
    lemma_u64_le_roundtrip(fin_code(c.fin));
    lemma_u64_le_roundtrip(c.val_size as u64);
    lemma_u64_le_roundtrip(c.val_align as u64);
}

impl CommonInnerData {
    /// The header for a value of the given size and alignment, with the
    /// thin container's finalizer.
    pub fn new(val_size: usize, val_align: usize) -> (c: CommonInnerData)
        ensures
            c == (CommonInnerData { fin: Fin::ReleaseCombined, val_size, val_align }),
    {
        CommonInnerData { fin: Fin::ReleaseCombined, val_size, val_align }
    }
}

/// Write a header as its 24-byte encoding.
fn encode_header(c: &CommonInnerData) -> (r: Vec<u8>)
    ensures
        r@ == header_enc(*c),
{
    let mut r = u64_to_le(encode_fin(c.fin));
    let mut vs = u64_to_le(c.val_size as u64);
    let mut va = u64_to_le(c.val_align as u64);
    r.append(&mut vs);
    r.append(&mut va);
    proof {
        assert(r@ =~= header_enc(*c));
    }
    r
}

/// Read the header back out of the front of the live allocation at `addr`.
fn read_common(heap: &Heap, addr: usize) -> (c: CommonInnerData)
    requires
        heap.wf(),
        heap.live(addr),
        HEADER_BYTES <= heap.size_at(addr),
        header_dec(heap.bytes_at(addr).subrange(0, HEADER_BYTES as int)) is Some,
    ensures
        Some(c) == header_dec(heap.bytes_at(addr).subrange(0, HEADER_BYTES as int)),
{
    let h = heap.read_range(addr, 0, HEADER_BYTES);
    let code = u64_read_le(&h, 0);
    let vs = u64_read_le(&h, 8);
    let va = u64_read_le(&h, 16);
    let fin = if code == 1 {
        Fin::ReleaseValueAndCell
    } else if code == 2 {
        Fin::ReleaseCellOnly
    } else {
        Fin::ReleaseCombined
    };
    CommonInnerData { fin, val_size: vs as usize, val_align: va as usize }
}

/// The decoded contents of one combined record: header, shape descriptor
/// and the value's bytes.
pub struct InnerData {
    /// The record's header.
    pub common: CommonInnerData,
    /// The value's shape descriptor.
    pub meta: Shape,
    /// The value's bytes.
    pub data: Vec<u8>,
}

/// The allocation at `addr` holds a consistent combined record: a header
/// with the thin finalizer and the value's extent, a valid shape descriptor,
/// and a size and alignment matching the computed combined layout.
pub open spec fn inner_wf_at(heap: Heap, addr: usize) -> bool {
    let b = heap.bytes_at(addr);
    let c = inner_common_at(heap, addr);
    &&& heap.live(addr)
    &&& HEADER_BYTES + SHAPE_BYTES <= heap.size_at(addr)
    &&& header_dec(b.subrange(0, HEADER_BYTES as int)) is Some
    &&& c.fin == Fin::ReleaseCombined
    &&& c.val_align >= 1
    &&& c.val_size + 2 * c.val_align + 2 * HEADER_BYTES + SHAPE_BYTES <= usize::MAX
    &&& heap.size_at(addr) == spec_combined_size(c.val_size, c.val_align)
    &&& heap.align_at(addr) == spec_combined_align(c.val_align)
    &&& spec_val_off(c.val_align) + c.val_size <= heap.size_at(addr)
    &&& shape_dec(b.subrange(HEADER_BYTES as int, (HEADER_BYTES + SHAPE_BYTES) as int)) is Some
}

/// The header stored at the front of the record at `addr`.
pub open spec fn inner_common_at(heap: Heap, addr: usize) -> CommonInnerData {
    header_dec(heap.bytes_at(addr).subrange(0, HEADER_BYTES as int))->Some_0
}

/// The shape descriptor stored after the header of the record at `addr`.
pub open spec fn inner_shape_at(heap: Heap, addr: usize) -> Shape {
    shape_dec(
        heap.bytes_at(addr).subrange(HEADER_BYTES as int, (HEADER_BYTES + SHAPE_BYTES) as int),
    )->Some_0
}

/// The value stored in the record at `addr`: the bytes of its value region,
/// its shape descriptor and its alignment.
pub open spec fn inner_value_at(heap: Heap, addr: usize) -> ValueModel {
    let c = inner_common_at(heap, addr);
    ValueModel {
        bytes: heap.bytes_at(addr).subrange(
            spec_val_off(c.val_align),
            spec_val_off(c.val_align) + c.val_size,
        ),
        shape: inner_shape_at(heap, addr),
        align: c.val_align,
    }
}

impl InnerData {
    /// Allocate a fresh combined record for a value of the given size and
    /// alignment, computing the layout at runtime.
    pub fn allocate(heap: &mut Heap, val_size: usize, val_align: usize) -> (addr: usize)
        requires
            old(heap).wf(),
            val_align >= 1,
            val_size + 2 * val_align + 2 * HEADER_BYTES + SHAPE_BYTES <= usize::MAX,
        ensures
            final(heap).wf(),
            addr != 0,
            !old(heap).live(addr),
            final(heap).live(addr),
            final(heap).size_at(addr) == spec_combined_size(val_size, val_align),
            final(heap).align_at(addr) == spec_combined_align(val_align),
            final(heap).bytes_at(addr) == Seq::new(
                spec_combined_size(val_size, val_align) as nat,
                |i: int| 0u8,
            ),
            unchanged_outside(*old(heap), *final(heap), set![addr]),
            final(heap).spec_live_count() == old(heap).spec_live_count() + 1,
    {
        let layout = combined_layout(val_size, val_align);
        heap.allocate(layout.size, layout.align)
    }

    /// Build a combined record from an owned typed allocation: allocate the
    /// record, write header and shape descriptor, copy the value's raw
    /// bytes into the value region, and discard the now-empty source
    /// allocation without running any destruction step on it.
    pub fn new(heap: &mut Heap, src: TypedPtr) -> (addr: usize)
        requires
            old(heap).wf(),
            old(heap).live(src.data.block),
            src.data.off == 0,
            old(heap).size_at(src.data.block) + 2 * old(heap).align_at(src.data.block) + 2
                * HEADER_BYTES + SHAPE_BYTES <= usize::MAX,
        ensures
            final(heap).wf(),
            addr != 0,
            !old(heap).live(addr),
            inner_wf_at(*final(heap), addr),
            inner_value_at(*final(heap), addr) == (ValueModel {
                bytes: old(heap).bytes_at(src.data.block),
                shape: src.shape,
                align: old(heap).align_at(src.data.block),
            }),
            !final(heap).live(src.data.block),
            unchanged_outside(*old(heap), *final(heap), set![addr, src.data.block]),
            final(heap).spec_live_count() == old(heap).spec_live_count(),
    {
        let ghost h0 = *heap;
        let vs = heap.block_size(src.data.block);
        let va = heap.block_align(src.data.block);
        let layout = combined_layout(vs, va);

        // Allocate a fresh combined record for the value.
        let addr = Self::allocate(heap, vs, va);
        let ghost h1 = *heap;

        // Write the finalizer header and the shape descriptor.
        let common = CommonInnerData::new(vs, va);
        let hdr = encode_header(&common);
        heap.write_range(addr, 0, &hdr);
        let ghost h2 = *heap;
        let desc = encode_shape(src.shape);
        heap.write_range(addr, HEADER_BYTES, &desc);
        let ghost h3 = *heap;

        // Copy the possibly variable-size value into the record.
        let val = heap.read_range(src.data.block, 0, vs);
        heap.write_range(addr, layout.val_off, &val);
        let ghost h4 = *heap;

        // Discard the source allocation, as the value has been copied out.
        heap.deallocate(src.data.block, vs, va);

        proof {
            let b2 = h2.bytes_at(addr);
            let b3 = h3.bytes_at(addr);
            let b4 = h4.bytes_at(addr);
            lemma_splice_read(h1.bytes_at(addr), 0, hdr@);
            lemma_splice_read(b2, HEADER_BYTES as int, desc@);
            lemma_splice_read(b3, layout.val_off as int, val@);
            assert(b2.subrange(0, HEADER_BYTES as int) =~= hdr@);
            assert(b3.subrange(0, HEADER_BYTES as int) =~= hdr@);
            assert(b4.subrange(0, HEADER_BYTES as int) =~= hdr@);
            assert(b3.subrange(HEADER_BYTES as int, (HEADER_BYTES + SHAPE_BYTES) as int)
                =~= desc@);
            assert(b4.subrange(HEADER_BYTES as int, (HEADER_BYTES + SHAPE_BYTES) as int)
                =~= desc@);
            assert(b4.subrange(layout.val_off as int, layout.val_off + vs) =~= val@);
            lemma_header_roundtrip(common);
            lemma_shape_roundtrip(src.shape);
            assert(val@ =~= h0.bytes_at(src.data.block));

            // The final state differs from the initial one only at the
            // record and the discarded source allocation.
            lemma_unchanged_widen(h0, h1, set![addr], set![addr, src.data.block]);
            lemma_unchanged_widen(h1, h2, set![addr], set![addr, src.data.block]);
            lemma_unchanged_widen(h2, h3, set![addr], set![addr, src.data.block]);
            lemma_unchanged_widen(h3, h4, set![addr], set![addr, src.data.block]);
            lemma_unchanged_widen(
                h4,
                *heap,
                set![src.data.block],
                set![addr, src.data.block],
            );
            lemma_unchanged_trans(h0, h1, h2, set![addr, src.data.block]);
            lemma_unchanged_trans(h0, h2, h3, set![addr, src.data.block]);
            lemma_unchanged_trans(h0, h3, h4, set![addr, src.data.block]);
            lemma_unchanged_trans(h0, h4, *heap, set![addr, src.data.block]);
        }
        addr
    }
}

/// The finalizer of the thin owning container: release the single combined
/// allocation; header and descriptor need no destruction of their own.
fn drop_impl(heap: &mut Heap, ptr: usize)
    requires
        old(heap).wf(),
        old(heap).live(ptr),
    ensures
        final(heap).wf(),
        !final(heap).live(ptr),
        unchanged_outside(*old(heap), *final(heap), set![ptr]),
        final(heap).spec_live_count() + 1 == old(heap).spec_live_count(),
{
    let size = heap.block_size(ptr);
    let align = heap.block_align(ptr);
    heap.deallocate(ptr, size, align);
}

/// An erased box, storing a (possibly variable-size) value of unknown
/// shape.  Reifying it back into a typed pointer or owned value requires the
/// caller to know the shape stored in the box.
///
/// This handle is a single field wide: the shape descriptor and the
/// finalizer live on the heap alongside the contained value, in one combined
/// allocation.  For a simpler three-field alternative, see
/// [`ErasedBox`](crate::ErasedBox).
#[derive(Debug)]
pub struct ThinErasedBox {
    /// Address of the combined record this box owns.
    inner: usize,
}

impl ThinErasedBox {
    /// Address of the single combined allocation.
    pub closed spec fn inner_addr(self) -> usize {
        self.inner
    }

    /// The handle is consistent with the allocator state: its combined
    /// record is live and well formed.
    pub open spec fn wf(self, heap: Heap) -> bool {
        inner_wf_at(heap, self.inner_addr())
    }

    /// The header of the box's combined record.
    pub open spec fn common_of(self, heap: Heap) -> CommonInnerData {
        inner_common_at(heap, self.inner_addr())
    }

    /// The shape descriptor stored in the box's combined record.
    pub open spec fn shape_of(self, heap: Heap) -> Shape {
        inner_shape_at(heap, self.inner_addr())
    }

    /// The value the box holds: its bytes, shape and alignment.
    pub open spec fn value_of(self, heap: Heap) -> ValueModel {
        inner_value_at(heap, self.inner_addr())
    }

    /// A change of the allocator state away from the combined record leaves
    /// the box consistent and its value unchanged.
    pub proof fn lemma_preserved(self, h1: Heap, h2: Heap, e: Set<usize>)
        requires
            self.wf(h1),
            unchanged_outside(h1, h2, e),
            !e.contains(self.inner_addr()),
        ensures
            self.wf(h2),
            self.value_of(h2) == self.value_of(h1),
    {
        assert(h1.live(self.inner_addr()));
    }

    /// A write through a mutable reification of the box is observed by
    /// every later reification: the box stays consistent, header and
    /// descriptor are untouched, and the value region now holds the written
    /// bytes.
    pub proof fn lemma_write_visible(self, h1: Heap, h2: Heap, data: Seq<u8>)
        requires
            self.wf(h1),
            data.len() == self.common_of(h1).val_size,
            unchanged_outside(h1, h2, set![self.inner_addr()]),
            h2.live(self.inner_addr()),
            h2.align_at(self.inner_addr()) == h1.align_at(self.inner_addr()),
            h2.bytes_at(self.inner_addr()) == splice(
                h1.bytes_at(self.inner_addr()),
                spec_val_off(self.common_of(h1).val_align),
                data,
            ),
        ensures
            self.wf(h2),
            self.common_of(h2) == self.common_of(h1),
            self.shape_of(h2) == self.shape_of(h1),
            self.value_of(h2).bytes == data,
            self.value_of(h2).shape == self.value_of(h1).shape,
            self.value_of(h2).align == self.value_of(h1).align,
    {
        let addr = self.inner_addr();
        let b1 = h1.bytes_at(addr);
        let b2 = h2.bytes_at(addr);
        let off = spec_val_off(self.common_of(h1).val_align);
        assert(h1.live(addr));
        crate::layout::lemma_round_up(
            HEADER_BYTES + SHAPE_BYTES,
            self.common_of(h1).val_align as int,
        );
        lemma_splice_read(b1, off, data);
        assert(b2.subrange(0, HEADER_BYTES as int) =~= b1.subrange(0, HEADER_BYTES as int));
        assert(b2.subrange(HEADER_BYTES as int, (HEADER_BYTES + SHAPE_BYTES) as int)
            =~= b1.subrange(HEADER_BYTES as int, (HEADER_BYTES + SHAPE_BYTES) as int));
    }

    /// Erase an owned value: place it into a fresh allocation and relocate
    /// that allocation into a combined record.
    pub fn new(heap: &mut Heap, v: ValueRepr) -> (b: ThinErasedBox)
        requires
            old(heap).wf(),
            v.wf(),
            v.bytes@.len() + 2 * v.align + 2 * HEADER_BYTES + SHAPE_BYTES <= usize::MAX,
        ensures
            final(heap).wf(),
            b.wf(*final(heap)),
            b.value_of(*final(heap)) == v@,
            b.inner_addr() != 0,
            !old(heap).live(b.inner_addr()),
            final(heap).align_at(b.inner_addr()) == spec_combined_align(v.align),
            unchanged_outside(*old(heap), *final(heap), set![b.inner_addr()]),
            final(heap).spec_live_count() == old(heap).spec_live_count() + 1,
    {
        let ghost h0 = *heap;
        let src = crate::value::store_value(heap, v);
        let ghost h1 = *heap;
        let b = Self::from_box(heap, src);
        proof {
            lemma_unchanged_widen(
                h0,
                h1,
                set![src.data.block],
                set![b.inner_addr(), src.data.block],
            );
            lemma_unchanged_trans(h0, h1, *heap, set![b.inner_addr(), src.data.block]);
            assert forall|a: usize|
                #![trigger h0.live(a)]
                #![trigger heap.live(a)]
                !set![b.inner_addr()].contains(a) implies {
                &&& heap.live(a) == h0.live(a)
                &&& h0.live(a) ==> heap.bytes_at(a) == h0.bytes_at(a) && heap.align_at(a)
                    == h0.align_at(a)
            } by {
                if a == src.data.block {
                    assert(!h0.live(a));
                    assert(!heap.live(a));
                } else {
                    assert(!set![b.inner_addr(), src.data.block].contains(a));
                }
            }
        }
        b
    }

    /// Take over an owned typed allocation, relocating it into a combined
    /// record; the source allocation is discarded.
    pub fn from_box(heap: &mut Heap, src: TypedPtr) -> (b: ThinErasedBox)
        requires
            old(heap).wf(),
            old(heap).live(src.data.block),
            src.data.off == 0,
            old(heap).size_at(src.data.block) + 2 * old(heap).align_at(src.data.block) + 2
                * HEADER_BYTES + SHAPE_BYTES <= usize::MAX,
        ensures
            final(heap).wf(),
            b.wf(*final(heap)),
            b.value_of(*final(heap)) == (ValueModel {
                bytes: old(heap).bytes_at(src.data.block),
                shape: src.shape,
                align: old(heap).align_at(src.data.block),
            }),
            b.inner_addr() != 0,
            !old(heap).live(b.inner_addr()),
            !final(heap).live(src.data.block),
            unchanged_outside(
                *old(heap),
                *final(heap),
                set![b.inner_addr(), src.data.block],
            ),
            final(heap).spec_live_count() == old(heap).spec_live_count(),
    {
        let inner = InnerData::new(heap, src);
        ThinErasedBox { inner }
    }

    /// Read the box's record back out of its combined allocation: header,
    /// shape descriptor and value bytes.
    fn inner_data(&self, heap: &Heap) -> (id: InnerData)
        requires
            heap.wf(),
            self.wf(*heap),
        ensures
            id.common == self.common_of(*heap),
            id.meta == self.shape_of(*heap),
            id.data@ == self.value_of(*heap).bytes,
    {
        let c = read_common(heap, self.inner);
        let desc = heap.read_range(self.inner, HEADER_BYTES, SHAPE_BYTES);
        let meta = decode_shape(&desc);
        let layout = combined_layout(c.val_size, c.val_align);
        let data = heap.read_range(self.inner, layout.val_off, c.val_size);
        InnerData { common: c, meta, data }
    }

    /// Rebuild the typed pointer to the value stored in this box: the value
    /// region within the combined record, together with the stored shape
    /// descriptor.
    pub fn reify_ptr(&self, heap: &Heap) -> (p: TypedPtr)
        requires
            heap.wf(),
            self.wf(*heap),
        ensures
            p.data.block == self.inner_addr(),
            p.data.off == spec_val_off(self.common_of(*heap).val_align),
            p.data.off + self.common_of(*heap).val_size <= heap.size_at(self.inner_addr()),
            p.shape == self.shape_of(*heap),
    {
        let c = read_common(heap, self.inner);
        let desc = heap.read_range(self.inner, HEADER_BYTES, SHAPE_BYTES);
        let shape = decode_shape(&desc);
        let layout = combined_layout(c.val_size, c.val_align);
        TypedPtr { data: DataPtr { block: self.inner, off: layout.val_off }, shape }
    }

    /// Convert the box back into a typed owned allocation.  A fresh
    /// allocation is made for the value, the value's bytes are relocated
    /// into it, and the combined allocation is released without running the
    /// finalizer's value-destruction step: ownership escapes whole in the
    /// returned pointer.
    pub fn reify_box(self, heap: &mut Heap) -> (p: TypedPtr)
        requires
            old(heap).wf(),
            self.wf(*old(heap)),
        ensures
            final(heap).wf(),
            p.data.block != 0,
            p.data.off == 0,
            p.shape == self.shape_of(*old(heap)),
            !old(heap).live(p.data.block),
            final(heap).live(p.data.block),
            final(heap).bytes_at(p.data.block) == self.value_of(*old(heap)).bytes,
            final(heap).align_at(p.data.block) == self.value_of(*old(heap)).align,
            !final(heap).live(self.inner_addr()),
            unchanged_outside(
                *old(heap),
                *final(heap),
                set![self.inner_addr(), p.data.block],
            ),
            final(heap).spec_live_count() == old(heap).spec_live_count(),
    {
        let ghost h0 = *heap;

        // Copy the record out, then move the value into a fresh allocation.
        let id = self.inner_data(heap);
        let out = crate::value::store_value(
            heap,
            ValueRepr { bytes: id.data, shape: id.meta, align: id.common.val_align },
        );
        let ghost h1 = *heap;

        // Release the combined allocation without running the finalizer's
        // value-destruction step: the value has already moved out.
        proof {
            self.lemma_preserved(h0, h1, set![out.data.block]);
        }
        let size = heap.block_size(self.inner);
        let align = heap.block_align(self.inner);
        heap.deallocate(self.inner, size, align);

        proof {
            lemma_unchanged_widen(
                h0,
                h1,
                set![out.data.block],
                set![self.inner_addr(), out.data.block],
            );
            lemma_unchanged_widen(
                h1,
                *heap,
                set![self.inner_addr()],
                set![self.inner_addr(), out.data.block],
            );
            lemma_unchanged_trans(h0, h1, *heap, set![self.inner_addr(), out.data.block]);
        }
        out
    }

    /// Read the value stored in this box, as through a shared reference.
    pub fn reify_ref(&self, heap: &Heap) -> (v: ValueRepr)
        requires
            heap.wf(),
            self.wf(*heap),
        ensures
            v@ == self.value_of(*heap),
            v.wf(),
    {
        let id = self.inner_data(heap);
        ValueRepr { bytes: id.data, shape: id.meta, align: id.common.val_align }
    }

    /// Rebuild the typed pointer to the value for writing, as through an
    /// exclusive reference; a write through it is seen by every later
    /// reification (see [`ThinErasedBox::lemma_write_visible`]).
    pub fn reify_mut(&mut self, heap: &Heap) -> (p: TypedPtr)
        requires
            heap.wf(),
            old(self).wf(*heap),
        ensures
            *final(self) == *old(self),
            p.data.block == old(self).inner_addr(),
            p.data.off == spec_val_off(old(self).common_of(*heap).val_align),
            p.data.off + old(self).common_of(*heap).val_size <= heap.size_at(
                old(self).inner_addr(),
            ),
            p.shape == old(self).shape_of(*heap),
    {
        let c = read_common(heap, self.inner);
        let desc = heap.read_range(self.inner, HEADER_BYTES, SHAPE_BYTES);
        let shape = decode_shape(&desc);
        let layout = combined_layout(c.val_size, c.val_align);
        TypedPtr { data: DataPtr { block: self.inner, off: layout.val_off }, shape }
    }

    /// Tear the box down: read the finalizer back out of the header and
    /// invoke it; it releases the single combined allocation exactly once.
    pub fn destroy(self, heap: &mut Heap)
        requires
            old(heap).wf(),
            self.wf(*old(heap)),
        ensures
            final(heap).wf(),
            !final(heap).live(self.inner_addr()),
            unchanged_outside(*old(heap), *final(heap), set![self.inner_addr()]),
            final(heap).spec_live_count() + 1 == old(heap).spec_live_count(),
    {
        let c = read_common(heap, self.inner);
        match c.fin {
            Fin::ReleaseCombined => drop_impl(heap, self.inner),
            _ => {
                proof {
                    assert(false);
                }
            },
        }
    }
}

} // verus!
