//! Whole-lifecycle guarantees of the owning containers, proved end to end.
//!
//! Each function here walks one complete lifecycle of an owning handle and
//! states in its contract what the library guarantees of it: a round trip
//! through erasure returns the value unchanged; teardown — whether by
//! reification to an owned value followed by that value's own destruction,
//! or by running the finalizer — releases every allocation the lifecycle
//! made exactly once, leaving the allocator's live count as it was and every
//! unrelated allocation untouched; and a write through a mutable reification
//! is read back by the next reification.

use vstd::prelude::*;

use crate::ebox::ErasedBox;
use crate::heap::{unchanged_outside, Heap};
use crate::layout::HEADER_BYTES;
use crate::shape::SHAPE_BYTES;
use crate::thin_ebox::ThinErasedBox;
use crate::value::{free_value, load_value, ValueRepr};

verus! {

/// Round trip through the wide container: erasing a value, reifying it back
/// to an owned value, and letting that value's own destruction run yields
/// the value unchanged and exactly one release of every allocation made —
/// the allocator returns to its previous live count with every previously
/// live allocation untouched.
pub fn wide_roundtrip(heap: &mut Heap, v: ValueRepr) -> (w: ValueRepr)
    requires
        old(heap).wf(),
        v.wf(),
    ensures
        w@ == v@,
        final(heap).wf(),
        final(heap).spec_live_count() == old(heap).spec_live_count(),
        forall|a: usize| #[trigger]
            old(heap).live(a) ==> final(heap).live(a) && final(heap).bytes_at(a) == old(
                heap,
            ).bytes_at(a) && final(heap).align_at(a) == old(heap).align_at(a),
{
    let ghost h0 = *heap;
    let b = ErasedBox::new(heap, v);
    let ghost h1 = *heap;
    let ghost data = b.data_addr();
    let ghost meta = b.meta_addr();
    let p = b.reify_box(heap);
    let ghost h2 = *heap;
    let w = load_value(heap, p);
    free_value(heap, p);
    proof {
        assert forall|a: usize| #[trigger] old(heap).live(a) implies heap.live(a)
            && heap.bytes_at(a) == old(heap).bytes_at(a) && heap.align_at(a) == old(
            heap,
        ).align_at(a) by {
            assert(a != data && a != meta);
            assert(h1.live(a) && h1.bytes_at(a) == h0.bytes_at(a) && h1.align_at(a)
                == h0.align_at(a));
            assert(h2.live(a) && h2.bytes_at(a) == h1.bytes_at(a) && h2.align_at(a)
                == h1.align_at(a));
        }
    }
    w
}

/// Erasing a value into the wide container and destroying the handle runs
/// the finalizer exactly once: exactly the two allocations that erasure made
/// are released, the allocator returns to its previous live count, and
/// every previously live allocation is untouched.
pub fn wide_erase_destroy(heap: &mut Heap, v: ValueRepr)
    requires
        old(heap).wf(),
        v.wf(),
    ensures
        final(heap).wf(),
        final(heap).spec_live_count() == old(heap).spec_live_count(),
        forall|a: usize| #[trigger]
            old(heap).live(a) ==> final(heap).live(a) && final(heap).bytes_at(a) == old(
                heap,
            ).bytes_at(a) && final(heap).align_at(a) == old(heap).align_at(a),
{
    let ghost h0 = *heap;
    let b = ErasedBox::new(heap, v);
    let ghost h1 = *heap;
    let ghost data = b.data_addr();
    let ghost meta = b.meta_addr();
    b.destroy(heap);
    proof {
        assert forall|a: usize| #[trigger] old(heap).live(a) implies heap.live(a)
            && heap.bytes_at(a) == old(heap).bytes_at(a) && heap.align_at(a) == old(
            heap,
        ).align_at(a) by {
            assert(a != data && a != meta);
            assert(h1.live(a) && h1.bytes_at(a) == h0.bytes_at(a) && h1.align_at(a)
                == h0.align_at(a));
        }
    }
}

/// Writing a value's bytes through a mutable reification of the wide
/// container and reifying again reads back exactly the written bytes, with
/// shape and alignment unchanged.
pub fn wide_write_read(heap: &mut Heap, b: &mut ErasedBox, data: &Vec<u8>) -> (w: ValueRepr)
    requires
        old(heap).wf(),
        old(b).wf(*old(heap)),
        data@.len() == old(heap).size_at(old(b).data_addr()),
    ensures
        *final(b) == *old(b),
        final(heap).wf(),
        old(b).wf(*final(heap)),
        w.bytes@ == data@,
        w@.shape == old(b).value_of(*old(heap)).shape,
        w@.align == old(b).value_of(*old(heap)).align,
        unchanged_outside(*old(heap), *final(heap), set![old(b).data_addr()]),
        final(heap).spec_live_count() == old(heap).spec_live_count(),
{
    let p = b.reify_mut(heap);
    let ghost h0 = *heap;
    proof {
        old(b).lemma_wf_live(h0);
    }
    heap.write_range(p.data.block, 0, data);
    proof {
        old(b).lemma_write_visible(h0, *heap, 0, data@);
        assert(old(b).value_of(*heap).bytes =~= data@);
    }
    b.reify_ref(heap)
}

/// Round trip through the thin container: as [`wide_roundtrip`], for the
/// single-allocation layout.
pub fn thin_roundtrip(heap: &mut Heap, v: ValueRepr) -> (w: ValueRepr)
    requires
        old(heap).wf(),
        v.wf(),
        v.bytes@.len() + 2 * v.align + 2 * HEADER_BYTES + SHAPE_BYTES <= usize::MAX,
    ensures
        w@ == v@,
        final(heap).wf(),
        final(heap).spec_live_count() == old(heap).spec_live_count(),
        forall|a: usize| #[trigger]
            old(heap).live(a) ==> final(heap).live(a) && final(heap).bytes_at(a) == old(
                heap,
            ).bytes_at(a) && final(heap).align_at(a) == old(heap).align_at(a),
{
    let ghost h0 = *heap;
    let b = ThinErasedBox::new(heap, v);
    let ghost h1 = *heap;
    let ghost inner = b.inner_addr();
    let p = b.reify_box(heap);
    let ghost h2 = *heap;
    let w = load_value(heap, p);
    free_value(heap, p);
    proof {
        assert forall|a: usize| #[trigger] old(heap).live(a) implies heap.live(a)
            && heap.bytes_at(a) == old(heap).bytes_at(a) && heap.align_at(a) == old(
            heap,
        ).align_at(a) by {
            assert(a != inner);
            assert(h1.live(a) && h1.bytes_at(a) == h0.bytes_at(a) && h1.align_at(a)
                == h0.align_at(a));
            assert(a != p.data.block);
            assert(h2.live(a) && h2.bytes_at(a) == h1.bytes_at(a) && h2.align_at(a)
                == h1.align_at(a));
        }
    }
    w
}

/// Erasing a value into the thin container and destroying the handle runs
/// the finalizer exactly once: as [`wide_erase_destroy`], for the
/// single-allocation layout.
pub fn thin_erase_destroy(heap: &mut Heap, v: ValueRepr)
    requires
        old(heap).wf(),
        v.wf(),
        v.bytes@.len() + 2 * v.align + 2 * HEADER_BYTES + SHAPE_BYTES <= usize::MAX,
    ensures
        final(heap).wf(),
        final(heap).spec_live_count() == old(heap).spec_live_count(),
        forall|a: usize| #[trigger]
            old(heap).live(a) ==> final(heap).live(a) && final(heap).bytes_at(a) == old(
                heap,
            ).bytes_at(a) && final(heap).align_at(a) == old(heap).align_at(a),
{
    let ghost h0 = *heap;
    let b = ThinErasedBox::new(heap, v);
    let ghost h1 = *heap;
    let ghost inner = b.inner_addr();
    b.destroy(heap);
    proof {
        assert forall|a: usize| #[trigger] old(heap).live(a) implies heap.live(a)
            && heap.bytes_at(a) == old(heap).bytes_at(a) && heap.align_at(a) == old(
            heap,
        ).align_at(a) by {
            assert(a != inner);
            assert(h1.live(a) && h1.bytes_at(a) == h0.bytes_at(a) && h1.align_at(a)
                == h0.align_at(a));
        }
    }
}

/// Writing a value's bytes through a mutable reification of the thin
/// container and reifying again reads back exactly the written bytes, with
/// shape and alignment unchanged.
pub fn thin_write_read(heap: &mut Heap, b: &mut ThinErasedBox, data: &Vec<u8>) -> (w: ValueRepr)
    requires
        old(heap).wf(),
        old(b).wf(*old(heap)),
        data@.len() == old(b).common_of(*old(heap)).val_size,
    ensures
        *final(b) == *old(b),
        final(heap).wf(),
        old(b).wf(*final(heap)),
        w.bytes@ == data@,
        w@.shape == old(b).value_of(*old(heap)).shape,
        w@.align == old(b).value_of(*old(heap)).align,
        unchanged_outside(*old(heap), *final(heap), set![old(b).inner_addr()]),
        final(heap).spec_live_count() == old(heap).spec_live_count(),
{
    let p = b.reify_mut(heap);
    let ghost h0 = *heap;
    heap.write_range(p.data.block, p.data.off, data);
    proof {
        old(b).lemma_write_visible(h0, *heap, data@);
    }
    b.reify_ref(heap)
}

} // verus!
