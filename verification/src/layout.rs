//! The combined layout calculator of the thin container.
//!
//! The thin container keeps finalizer, shape descriptor and value bytes in
//! one allocation.  Because the value's size and alignment may only be known
//! at runtime, the combined record's extent must be computed generically on
//! every call: the value region starts at the first correctly aligned offset
//! after header and descriptor, the record's alignment is the maximum
//! requirement among its parts, and the total size is rounded up to a
//! multiple of that alignment.  The arithmetic lives here on its own, as
//! padding errors in it would corrupt every thin handle.

use vstd::arithmetic::div_mod::{
    lemma_fundamental_div_mod, lemma_mod_bound, lemma_mod_multiples_basic,
};
use vstd::prelude::*;

use crate::shape::SHAPE_BYTES;

verus! {

/// Number of bytes of the thin container's encoded header: the finalizer
/// code and the value's size and alignment, eight bytes each.
pub const HEADER_BYTES: usize = 24;

/// Alignment requirement of the thin container's header.
pub const HEADER_ALIGN: usize = 8;

/// `x` rounded up to the next multiple of `a`.
pub open spec fn round_up_spec(x: int, a: int) -> int {
    ((x + a - 1) / a) * a
}

/// Rounding up yields the least multiple of `a` that is at least `x`.
pub proof fn lemma_round_up(x: int, a: int)
    requires
        0 <= x,
        1 <= a,
    ensures
        x <= round_up_spec(x, a) < x + a,
        round_up_spec(x, a) % a == 0,
{
    let q = (x + a - 1) / a;
    lemma_fundamental_div_mod(x + a - 1, a);
    lemma_mod_bound(x + a - 1, a);
    assert(a * q == x + a - 1 - ((x + a - 1) % a));
    lemma_mod_multiples_basic(q, a);
}

/// `x` rounded up to the next multiple of `a`.
pub fn round_up(x: usize, a: usize) -> (r: usize)
    requires
        a >= 1,
        x + a <= usize::MAX,
    ensures
        r == round_up_spec(x as int, a as int),
        x <= r < x + a,
        r % a == 0,
{
    proof {
        lemma_round_up(x as int, a as int);
    }
    ((x + a - 1) / a) * a
}

/// Byte offset of the value region within a combined record whose value
/// needs alignment `val_align`: the first multiple of `val_align` past the
/// header and the descriptor.
pub open spec fn spec_val_off(val_align: usize) -> int {
    round_up_spec(HEADER_BYTES + SHAPE_BYTES, val_align as int)
}

/// Alignment of a combined record: the maximum requirement among header,
/// descriptor and value.
pub open spec fn spec_combined_align(val_align: usize) -> usize {
    if val_align >= HEADER_ALIGN {
        val_align
    } else {
        HEADER_ALIGN
    }
}

/// Total size of a combined record: value region end, rounded up to a
/// multiple of the record's alignment.
pub open spec fn spec_combined_size(val_size: usize, val_align: usize) -> int {
    round_up_spec(spec_val_off(val_align) + val_size, spec_combined_align(val_align) as int)
}

/// A combined record is never empty: header and descriptor occupy space even
/// when the value itself has size zero, so the degenerate zero-size
/// allocation cannot arise.
pub proof fn lemma_combined_size_positive(val_size: usize, val_align: usize)
    requires
        val_align >= 1,
    ensures
        spec_combined_size(val_size, val_align) >= HEADER_BYTES + SHAPE_BYTES,
{
    lemma_round_up(HEADER_BYTES + SHAPE_BYTES, val_align as int);
    lemma_round_up(
        spec_val_off(val_align) + val_size,
        spec_combined_align(val_align) as int,
    );
}

/// The computed extent of one combined record.
pub struct InnerLayout {
    /// Total size of the record's allocation.
    pub size: usize,
    /// Alignment of the record's allocation.
    pub align: usize,
    /// Byte offset of the value region within the record.
    pub val_off: usize,
}

/// Compute the extent of a combined record for a value of the given size and
/// alignment.  This runs for every construction: the value's shape is not
/// known until runtime.
pub fn combined_layout(val_size: usize, val_align: usize) -> (r: InnerLayout)
    requires
        val_align >= 1,
        val_size + 2 * val_align + 2 * HEADER_BYTES + SHAPE_BYTES <= usize::MAX,
    ensures
        r.val_off == spec_val_off(val_align),
        r.align == spec_combined_align(val_align),
        r.size == spec_combined_size(val_size, val_align),
        HEADER_BYTES + SHAPE_BYTES <= r.val_off,
        r.val_off + val_size <= r.size,
        r.val_off % val_align == 0,
        r.align >= HEADER_ALIGN,
        r.align >= val_align,
        r.align >= 1,
{
    let val_off = round_up(HEADER_BYTES + SHAPE_BYTES, val_align);
    let align = if val_align >= HEADER_ALIGN {
        val_align
    } else {
        HEADER_ALIGN
    };
    let size = round_up(val_off + val_size, align);
    InnerLayout { size, align, val_off }
}

} // verus!
