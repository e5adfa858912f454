//! The shape/finalizer scheme shared by every handle.
//!
//! A shape descriptor is the fixed-size, per-value metadata needed to
//! interpret a variable-size value from its data pointer alone: nothing for
//! an ordinary fixed-size value, an element count for a sequence, a dispatch
//! table address for a dynamically-dispatched object.  A finalizer is chosen
//! when a value is erased and is the only piece of type identity that
//! survives erasure: it knows which allocations the handle owns and releases
//! exactly those.
//!
//! Descriptors are stored in allocations as a fixed nine-byte record: a tag
//! byte followed by the little-endian payload, sized to the largest variant.

use vstd::prelude::*;

verus! {

/// Shape descriptor of an erased value.
#[derive(Clone, Copy, PartialEq, Eq, Structural, Debug)]
pub enum Shape {
    /// An ordinary fixed-size value; the descriptor carries no information.
    Fixed,
    /// A sequence of the given element count.
    SeqLen(usize),
    /// A dynamically-dispatched object with the given dispatch table address.
    Dispatch(usize),
}

/// Finalizer of a handle, fixed at construction: which allocations the
/// handle owns and must release on teardown.
#[derive(Clone, Copy, PartialEq, Eq, Structural, Debug)]
pub enum Fin {
    /// Release the value's own allocation and the descriptor cell: the wide
    /// owning container.
    ReleaseValueAndCell,
    /// Release only the descriptor cell, never the referent: the non-owning
    /// pointer family.
    ReleaseCellOnly,
    /// Release the single combined allocation: the thin owning container.
    ReleaseCombined,
}

/// Number of bytes of an encoded shape descriptor.
pub const SHAPE_BYTES: usize = 9;

/// The code under which a finalizer is stored in a combined record's
/// header.
pub open spec fn fin_code(f: Fin) -> u64 {
    match f {
        Fin::ReleaseValueAndCell => 1,
        Fin::ReleaseCellOnly => 2,
        Fin::ReleaseCombined => 3,
    }
}

/// The finalizer a header code stands for, if the code is valid.
pub open spec fn fin_from_code(c: u64) -> Option<Fin> {
    if c == 1 {
        Some(Fin::ReleaseValueAndCell)
    } else if c == 2 {
        Some(Fin::ReleaseCellOnly)
    } else if c == 3 {
        Some(Fin::ReleaseCombined)
    } else {
        None
    }
}

/// Write a finalizer as its header code.
pub fn encode_fin(f: Fin) -> (c: u64)
    ensures
        c == fin_code(f),
        fin_from_code(c) == Some(f),
{
    match f {
        Fin::ReleaseValueAndCell => 1,
        Fin::ReleaseCellOnly => 2,
        Fin::ReleaseCombined => 3,
    }
}

/// The eight little-endian bytes of `v`.
pub open spec fn u64_le(v: u64) -> Seq<u8> {
    seq![
        (v % 0x100) as u8,
        ((v / 0x100) % 0x100) as u8,
        ((v / 0x10000) % 0x100) as u8,
        ((v / 0x1000000) % 0x100) as u8,
        ((v / 0x100000000) % 0x100) as u8,
        ((v / 0x10000000000) % 0x100) as u8,
        ((v / 0x1000000000000) % 0x100) as u8,
        ((v / 0x100000000000000) % 0x100) as u8,
    ]
}

/// The value read back from eight little-endian bytes.
pub open spec fn u64_from_le(s: Seq<u8>) -> u64 {
    (s[0] + s[1] * 0x100 + s[2] * 0x10000 + s[3] * 0x1000000 + s[4] * 0x100000000 + s[5]
        * 0x10000000000 + s[6] * 0x1000000000000 + s[7] * 0x100000000000000) as u64
}

/// Reading back the little-endian bytes of a value yields the value.
pub proof fn lemma_u64_le_roundtrip(v: u64)
    ensures
        u64_from_le(u64_le(v)) == v,
{
    assert(v % 0x100 + (v / 0x100) % 0x100 * 0x100 + (v / 0x10000) % 0x100 * 0x10000 + (v
        / 0x1000000) % 0x100 * 0x1000000 + (v / 0x100000000) % 0x100 * 0x100000000 + (v
        / 0x10000000000) % 0x100 * 0x10000000000 + (v / 0x1000000000000) % 0x100 * 0x1000000000000
        + (v / 0x100000000000000) % 0x100 * 0x100000000000000 == v) by (bit_vector);
}

/// Write `v` as its eight little-endian bytes.
pub fn u64_to_le(v: u64) -> (r: Vec<u8>)
    ensures
        r@ == u64_le(v),
{
    let mut r: Vec<u8> = Vec::new();
    r.push((v % 0x100) as u8);
    r.push(((v / 0x100) % 0x100) as u8);
    r.push(((v / 0x10000) % 0x100) as u8);
    r.push(((v / 0x1000000) % 0x100) as u8);
    r.push(((v / 0x100000000) % 0x100) as u8);
    r.push(((v / 0x10000000000) % 0x100) as u8);
    r.push(((v / 0x1000000000000) % 0x100) as u8);
    r.push(((v / 0x100000000000000) % 0x100) as u8);
    proof {
        assert(r@ =~= u64_le(v));
    }
    r
}

/// Read the value of the eight little-endian bytes at offset `off` of `b`.
pub fn u64_read_le(b: &Vec<u8>, off: usize) -> (r: u64)
    requires
        off + 8 <= b@.len(),
    ensures
        r == u64_from_le(b@.subrange(off as int, off + 8)),
{
    let _n = b.len();
    b[off] as u64 + (b[off + 1] as u64) * 0x100 + (b[off + 2] as u64) * 0x10000 + (b[off + 3]
        as u64) * 0x1000000 + (b[off + 4] as u64) * 0x100000000 + (b[off + 5] as u64)
        * 0x10000000000 + (b[off + 6] as u64) * 0x1000000000000 + (b[off + 7] as u64)
        * 0x100000000000000
}

/// The tag byte of a shape descriptor.
pub open spec fn shape_tag(s: Shape) -> u8 {
    match s {
        Shape::Fixed => 0,
        Shape::SeqLen(_) => 1,
        Shape::Dispatch(_) => 2,
    }
}

/// The payload of a shape descriptor.
pub open spec fn shape_payload(s: Shape) -> u64 {
    match s {
        Shape::Fixed => 0,
        Shape::SeqLen(n) => n as u64,
        Shape::Dispatch(p) => p as u64,
    }
}

/// The nine-byte encoding of a shape descriptor: tag, then payload.
pub open spec fn shape_enc(s: Shape) -> Seq<u8> {
    seq![shape_tag(s)] + u64_le(shape_payload(s))
}

/// The shape descriptor encoded in `b`, if `b` is a valid encoding.
pub open spec fn shape_dec(b: Seq<u8>) -> Option<Shape> {
    if b.len() == SHAPE_BYTES {
        let payload = u64_from_le(b.subrange(1, 9));
        if b[0] == 0 && payload == 0 {
            Some(Shape::Fixed)
        } else if b[0] == 1 && payload <= usize::MAX {
            Some(Shape::SeqLen(payload as usize))
        } else if b[0] == 2 && payload <= usize::MAX {
            Some(Shape::Dispatch(payload as usize))
        } else {
            None
        }
    } else {
        None
    }
}

/// Decoding an encoded shape descriptor yields the descriptor back.
pub proof fn lemma_shape_roundtrip(s: Shape)
    ensures
        shape_dec(shape_enc(s)) == Some(s),
{
    assert(shape_enc(s).subrange(1, 9) =~= u64_le(shape_payload(s)));
    lemma_u64_le_roundtrip(shape_payload(s));
}

/// Write a shape descriptor as its nine-byte encoding.
pub fn encode_shape(s: Shape) -> (r: Vec<u8>)
    ensures
        r@ == shape_enc(s),
{
    let (tag, payload): (u8, u64) = match s {
        Shape::Fixed => (0, 0),
        Shape::SeqLen(n) => (1, n as u64),
        Shape::Dispatch(p) => (2, p as u64),
    };
    let mut r: Vec<u8> = Vec::new();
    r.push(tag);
    let mut w = u64_to_le(payload);
    r.append(&mut w);
    proof {
        assert(r@ =~= shape_enc(s));
    }
    r
}

/// Read a shape descriptor back out of its nine-byte encoding.
pub fn decode_shape(b: &Vec<u8>) -> (s: Shape)
    requires
        shape_dec(b@) is Some,
    ensures
        Some(s) == shape_dec(b@),
{
    let payload = u64_read_le(b, 1);
    let tag = b[0];
    if tag == 1 {
        Shape::SeqLen(payload as usize)
    } else if tag == 2 {
        Shape::Dispatch(payload as usize)
    } else {
        Shape::Fixed
    }
}

} // verus!
