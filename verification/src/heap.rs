//! A model of the single process-wide allocator that every handle in this
//! crate is a client of.
//!
//! The allocator owns a store of blocks addressed by `usize` addresses.
//! Address `0` is reserved as the null address and never backs an allocation,
//! so every address handed out is non-null.  The interface is the classic
//! pair `allocate(size, align)` / `deallocate(addr, size, align)`, plus byte
//! reads and writes inside a live block.  Releasing a block requires it to be
//! live, so a double free is a verification error, and `live_count` is the
//! allocation tracker that leak checks observe.

use vstd::prelude::*;

verus! {

/// One allocation: the alignment it was requested with and its bytes.
pub struct Block {
    /// Alignment the block was allocated with.
    pub align: usize,
    /// The block's bytes; the length is the allocation's size.
    pub bytes: Vec<u8>,
}

/// How many entries of a block store are live allocations.
spec fn count_live(s: Seq<Option<Block>>) -> nat
    decreases s.len(),
{
    if s.len() == 0 {
        0
    } else {
        count_live(s.drop_last()) + if s.last() is Some {
            1nat
        } else {
            0nat
        }
    }
}

proof fn lemma_count_live_push(s: Seq<Option<Block>>, b: Option<Block>)
    ensures
        count_live(s.push(b)) == count_live(s) + if b is Some {
            1nat
        } else {
            0nat
        },
{
    assert(s.push(b).drop_last() =~= s);
    assert(s.push(b).last() == b);
}

proof fn lemma_count_live_update_none(s: Seq<Option<Block>>, i: int)
    requires
        0 <= i < s.len(),
        s[i] is Some,
    ensures
        count_live(s.update(i, None)) + 1 == count_live(s),
    decreases s.len(),
{
    let t = s.update(i, None);
    if i == s.len() - 1 {
        assert(t.drop_last() =~= s.drop_last());
        assert(t.last() is None);
    } else {
        assert(t.drop_last() =~= s.drop_last().update(i, None));
        assert(t.last() == s.last());
        lemma_count_live_update_none(s.drop_last(), i);
    }
}

proof fn lemma_count_live_update_same(s: Seq<Option<Block>>, i: int, b: Option<Block>)
    requires
        0 <= i < s.len(),
        s[i] is Some,
        b is Some,
    ensures
        count_live(s.update(i, b)) == count_live(s),
    decreases s.len(),
{
    let t = s.update(i, b);
    if i == s.len() - 1 {
        assert(t.drop_last() =~= s.drop_last());
        assert(t.last() == b);
    } else {
        assert(t.drop_last() =~= s.drop_last().update(i, b));
        assert(t.last() == s.last());
        lemma_count_live_update_same(s.drop_last(), i, b);
    }
}

/// The bytes of a block after `data` has been written at offset `off`.
pub open spec fn splice(s: Seq<u8>, off: int, data: Seq<u8>) -> Seq<u8> {
    s.subrange(0, off) + data + s.subrange(off + data.len(), s.len() as int)
}

/// Reading back a written range yields the written bytes, and a write leaves
/// the block's size and the bytes outside the range unchanged.
pub proof fn lemma_splice_read(s: Seq<u8>, off: int, data: Seq<u8>)
    requires
        0 <= off,
        off + data.len() <= s.len(),
    ensures
        splice(s, off, data).len() == s.len(),
        splice(s, off, data).subrange(off, off + data.len() as int) == data,
        splice(s, off, data).subrange(0, off) == s.subrange(0, off),
        splice(s, off, data).subrange(off + data.len(), s.len() as int) == s.subrange(
            off + data.len(),
            s.len() as int,
        ),
{
    assert(splice(s, off, data).subrange(off, off + data.len() as int) =~= data);
    assert(splice(s, off, data).subrange(0, off) =~= s.subrange(0, off));
    assert(splice(s, off, data).subrange(off + data.len(), s.len() as int) =~= s.subrange(
        off + data.len(),
        s.len() as int,
    ));
}

/// Nothing outside `except` differs between the two allocator states: the
/// same addresses are live, with the same bytes and alignment.
pub open spec fn unchanged_outside(h1: Heap, h2: Heap, except: Set<usize>) -> bool {
    forall|a: usize|
        #![trigger h1.live(a)]
        #![trigger h2.live(a)]
        !except.contains(a) ==> {
            &&& h2.live(a) == h1.live(a)
            &&& h1.live(a) ==> h2.bytes_at(a) == h1.bytes_at(a) && h2.align_at(a) == h1.align_at(
                a,
            )
        }
}

/// Two successive changes that each leave everything outside `e` untouched
/// compose: nothing outside `e` differs between the first and last state.
pub proof fn lemma_unchanged_trans(h0: Heap, h1: Heap, h2: Heap, e: Set<usize>)
    requires
        unchanged_outside(h0, h1, e),
        unchanged_outside(h1, h2, e),
    ensures
        unchanged_outside(h0, h2, e),
{
    assert forall|a: usize| !e.contains(a) implies {
        &&& h2.live(a) == h0.live(a)
        &&& h0.live(a) ==> h2.bytes_at(a) == h0.bytes_at(a) && h2.align_at(a) == h0.align_at(a)
    } by {
        assert(h1.live(a) == h0.live(a));
        assert(h2.live(a) == h1.live(a));
    }
}

/// Anything unchanged outside a smaller set is unchanged outside a larger one.
pub proof fn lemma_unchanged_widen(h0: Heap, h1: Heap, e: Set<usize>, w: Set<usize>)
    requires
        unchanged_outside(h0, h1, e),
        e.subset_of(w),
    ensures
        unchanged_outside(h0, h1, w),
{
    assert forall|a: usize| !w.contains(a) implies {
        &&& h1.live(a) == h0.live(a)
        &&& h0.live(a) ==> h1.bytes_at(a) == h0.bytes_at(a) && h1.align_at(a) == h0.align_at(a)
    } by {
        assert(!e.contains(a));
        assert(h1.live(a) == h0.live(a));
    }
}

/// The process-wide allocator, threaded explicitly through construction,
/// reification and destruction.
pub struct Heap {
    blocks: Vec<Option<Block>>,
}

impl Heap {
    /// Address zero is reserved as the null address, and every live block has
    /// a positive alignment.
    pub closed spec fn wf(self) -> bool {
        &&& self.blocks@.len() >= 1
        &&& self.blocks@[0] is None
        &&& forall|a: usize| #[trigger] self.live(a) ==> self.align_at(a) >= 1
    }

    /// Whether `addr` is a live allocation.
    pub closed spec fn live(self, addr: usize) -> bool {
        &&& 1 <= addr < self.blocks@.len()
        &&& self.blocks@[addr as int] is Some
    }

    /// The bytes of the live allocation at `addr`.
    pub closed spec fn bytes_at(self, addr: usize) -> Seq<u8> {
        self.blocks@[addr as int]->Some_0.bytes@
    }

    /// The alignment the live allocation at `addr` was made with.
    pub closed spec fn align_at(self, addr: usize) -> usize {
        self.blocks@[addr as int]->Some_0.align
    }

    /// The size in bytes of the live allocation at `addr`.
    pub open spec fn size_at(self, addr: usize) -> nat {
        self.bytes_at(addr).len()
    }

    /// How many allocations are live.
    pub closed spec fn spec_live_count(self) -> nat {
        count_live(self.blocks@)
    }

    /// A live allocation's address is never the null address.
    pub proof fn lemma_live_not_null(self, addr: usize)
        requires
            self.live(addr),
        ensures
            addr != 0,
    {
    }

    /// A fresh allocator with no live allocations.
    pub fn new() -> (h: Heap)
        ensures
            h.wf(),
            h.spec_live_count() == 0,
            forall|a: usize| !h.live(a),
    {
        let mut blocks: Vec<Option<Block>> = Vec::new();
        proof {
            lemma_count_live_push(blocks@, None);
        }
        blocks.push(None);
        Heap { blocks }
    }

    /// Allocate `size` bytes with alignment `align`; the new block is
    /// zero-filled and its address is non-null and fresh.  Allocation in the
    /// model never fails; its real counterpart treats failure as fatal.
    pub fn allocate(&mut self, size: usize, align: usize) -> (addr: usize)
        requires
            old(self).wf(),
            align >= 1,
        ensures
            final(self).wf(),
            addr != 0,
            !old(self).live(addr),
            final(self).live(addr),
            final(self).size_at(addr) == size,
            final(self).align_at(addr) == align,
            final(self).bytes_at(addr) == Seq::new(size as nat, |i: int| 0u8),
            unchanged_outside(*old(self), *final(self), set![addr]),
            final(self).spec_live_count() == old(self).spec_live_count() + 1,
    {
        let mut bytes: Vec<u8> = Vec::new();
        let mut i: usize = 0;
        while i < size
            invariant
                i <= size,
                bytes@ =~= Seq::new(i as nat, |j: int| 0u8),
            decreases size - i,
        {
            bytes.push(0u8);
            i = i + 1;
        }
        let addr = self.blocks.len();
        proof {
            lemma_count_live_push(self.blocks@, Some(Block { align, bytes }));
        }
        self.blocks.push(Some(Block { align, bytes }));
        proof {
            assert forall|a: usize| #[trigger] self.live(a) implies self.align_at(a) >= 1 by {
                if a != addr {
                    assert(old(self).live(a));
                }
            }
        }
        addr
    }

    /// Release the live allocation at `addr`.  The stated size and alignment
    /// must be the ones the block was made with, as the real allocator
    /// interface demands; the model checks them against the block instead of
    /// consuming them.
    #[allow(unused_variables)]
    pub fn deallocate(&mut self, addr: usize, size: usize, align: usize)
        requires
            old(self).wf(),
            old(self).live(addr),
            size == old(self).size_at(addr),
            align == old(self).align_at(addr),
        ensures
            final(self).wf(),
            !final(self).live(addr),
            unchanged_outside(*old(self), *final(self), set![addr]),
            final(self).spec_live_count() + 1 == old(self).spec_live_count(),
    {
        proof {
            lemma_count_live_update_none(self.blocks@, addr as int);
        }
        self.blocks[addr] = None;
        proof {
            assert forall|a: usize| #[trigger] self.live(a) implies self.align_at(a) >= 1 by {
                assert(old(self).live(a));
            }
        }
    }

    /// The size of the live allocation at `addr`.
    pub fn block_size(&self, addr: usize) -> (size: usize)
        requires
            self.wf(),
            self.live(addr),
        ensures
            size == self.size_at(addr),
    {
        match &self.blocks[addr] {
            Some(b) => b.bytes.len(),
            None => 0,
        }
    }

    /// The alignment of the live allocation at `addr`.
    pub fn block_align(&self, addr: usize) -> (align: usize)
        requires
            self.wf(),
            self.live(addr),
        ensures
            align == self.align_at(addr),
            align >= 1,
    {
        match &self.blocks[addr] {
            Some(b) => b.align,
            None => 1,
        }
    }

    /// Copy `len` bytes out of the live allocation at `addr`, starting at
    /// byte offset `off`.
    pub fn read_range(&self, addr: usize, off: usize, len: usize) -> (out: Vec<u8>)
        requires
            self.wf(),
            self.live(addr),
            off + len <= self.size_at(addr),
        ensures
            out@ == self.bytes_at(addr).subrange(off as int, off + len),
    {
        let block = match &self.blocks[addr] {
            Some(b) => b,
            None => {
                proof {
                    assert(false);
                }
                return Vec::new();
            },
        };
        let n = block.bytes.len();
        let mut out: Vec<u8> = Vec::new();
        let mut i: usize = 0;
        while i < len
            invariant
                i <= len,
                off + len <= n,
                n == block.bytes@.len(),
                out@ =~= block.bytes@.subrange(off as int, off + i),
            decreases len - i,
        {
            out.push(block.bytes[off + i]);
            i = i + 1;
        }
        out
    }

    /// Write `data` into the live allocation at `addr`, starting at byte
    /// offset `off`; the rest of the block keeps its bytes.
    pub fn write_range(&mut self, addr: usize, off: usize, data: &Vec<u8>)
        requires
            old(self).wf(),
            old(self).live(addr),
            off + data@.len() <= old(self).size_at(addr),
        ensures
            final(self).wf(),
            final(self).live(addr),
            final(self).bytes_at(addr) == splice(old(self).bytes_at(addr), off as int, data@),
            final(self).size_at(addr) == old(self).size_at(addr),
            final(self).align_at(addr) == old(self).align_at(addr),
            unchanged_outside(*old(self), *final(self), set![addr]),
            final(self).spec_live_count() == old(self).spec_live_count(),
    {
        let ghost start = self.blocks@;
        let slot = &mut self.blocks[addr];
        match slot {
            Some(block) => {
                let n = block.bytes.len();
                let mut i: usize = 0;
                let ghost orig = block.bytes@;
                let ghost orig_align = block.align;
                while i < data.len()
                    invariant
                        i <= data@.len(),
                        off + data@.len() <= n,
                        n == orig.len(),
                        n == block.bytes@.len(),
                        block.align == orig_align,
                        block.bytes@ =~= splice(orig, off as int, data@.subrange(0, i as int)),
                    decreases data@.len() - i,
                {
                    block.bytes[off + i] = data[i];
                    proof {
                        let lhs = block.bytes@;
                        let rhs = splice(orig, off as int, data@.subrange(0, i + 1));
                        assert(lhs.len() == orig.len());
                        assert(rhs.len() == orig.len());
                        assert forall|j: int| 0 <= j < orig.len() implies lhs[j] == rhs[j] by {
                            if j < off {
                                assert(lhs[j] == orig[j]);
                                assert(rhs[j] == orig[j]);
                            } else if j <= off + i {
                                assert(lhs[j] == data@[j - off]);
                                assert(rhs[j] == data@[j - off]);
                            } else {
                                assert(lhs[j] == orig[j]);
                                assert(rhs[j] == orig[j]);
                            }
                        }
                        assert(lhs =~= rhs);
                    }
                    i = i + 1;
                }
                proof {
                    assert(data@.subrange(0, data@.len() as int) =~= data@);
                }
            },
            None => {
                proof {
                    assert(false);
                }
            },
        }
        proof {
            lemma_count_live_update_same(start, addr as int, self.blocks@[addr as int]);
            assert forall|a: usize| #[trigger] self.live(a) implies self.align_at(a) >= 1 by {
                assert(old(self).live(a));
            }
        }
    }

    /// The number of live allocations: the leak check of the model.
    pub fn live_count(&self) -> (n: usize)
        requires
            self.wf(),
        ensures
            n == self.spec_live_count(),
    {
        let mut n: usize = 0;
        let mut i: usize = 0;
        while i < self.blocks.len()
            invariant
                i <= self.blocks@.len(),
                n <= i,
                n == count_live(self.blocks@.take(i as int)),
            decreases self.blocks@.len() - i,
        {
            proof {
                assert(self.blocks@.take(i + 1).drop_last() =~= self.blocks@.take(i as int));
                assert(self.blocks@.take(i + 1).last() == self.blocks@[i as int]);
            }
            if self.blocks[i].is_some() {
                n = n + 1;
            }
            i = i + 1;
        }
        proof {
            assert(self.blocks@.take(self.blocks@.len() as int) =~= self.blocks@);
        }
        n
    }
}

} // verus!
