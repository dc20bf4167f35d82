//! Bump allocation inside one block: a block paired with its line-mark
//! bitmap and a cursor/limit pair. The cursor only moves forward within a
//! region; exhaustion is an expected outcome, not an error.

use crate::arith::align_up;
use crate::block::Block;
use crate::block::BlockError;
use crate::meta::BlockMeta;
use crate::source::RawBlockSource;
use crate::BLOCK_SIZE;
use crate::LINE_COUNT;
use vstd::prelude::*;

verus! {

/// One block under bump allocation, with its occupancy marks.
pub struct BumpBlock {
    cursor: usize,
    limit: usize,
    block: Block,
    meta: BlockMeta,
}

impl BumpBlock {
    /// Byte offset at which the next allocation would start.
    pub closed spec fn spec_cursor(&self) -> int {
        self.cursor as int
    }

    /// Byte offset one past the last usable byte of the current region.
    pub closed spec fn spec_limit(&self) -> int {
        self.limit as int
    }

    /// The exclusively owned block.
    pub closed spec fn spec_block(&self) -> Block {
        self.block
    }

    /// The exclusively owned line-mark bitmap.
    pub closed spec fn spec_meta(&self) -> BlockMeta {
        self.meta
    }

    /// The cursor never passes the limit, the limit never passes the end
    /// of the block, and the block is a well-formed `BLOCK_SIZE` region.
    pub open spec fn wf(&self) -> bool {
        &&& self.spec_block().wf()
        &&& self.spec_block().spec_size() == BLOCK_SIZE
        &&& 0 <= self.spec_cursor() <= self.spec_limit() <= BLOCK_SIZE
        &&& self.spec_meta().wf()
    }

    /// Obtains a fresh `BLOCK_SIZE` block from `src` and wraps it for
    /// bump allocation over the whole block, with every line unmarked.
    /// `BLOCK_SIZE` is a power of two, so the only possible failure is
    /// the source's own `OOM`.
    pub fn new(src: &mut RawBlockSource) -> (r: Result<BumpBlock, BlockError>)
        requires
            old(src).wf(),
        ensures
            final(src).wf(),
            final(src).spec_capacity() == old(src).spec_capacity(),
            r is Ok <==> old(src).can_grant(BLOCK_SIZE as int),
            r matches Err(e) ==> e == BlockError::OOM && *final(src) == *old(src),
            r matches Ok(b) ==> ({
                &&& b.wf()
                &&& b.spec_cursor() == 0
                &&& b.spec_limit() == BLOCK_SIZE
                &&& forall|i: int| 0 <= i < LINE_COUNT ==> !b.spec_meta().spec_marked(i)
                &&& b.spec_block().spec_ptr() == align_up(old(src).spec_next(), BLOCK_SIZE as int)
                &&& final(src).spec_next() == b.spec_block().spec_ptr() + BLOCK_SIZE
            }),
    {
        proof {
            crate::lemma_block_geometry();
        }
        match Block::new(src, BLOCK_SIZE) {
            Ok(block) => Ok(
                BumpBlock { cursor: 0, limit: BLOCK_SIZE, block, meta: BlockMeta::new() },
            ),
            Err(e) => Err(e),
        }
    }

    /// Grants `size` bytes starting at the current cursor and advances
    /// the cursor; reports exhaustion, leaving the state untouched,
    /// exactly when fewer than `size` bytes remain before the limit.
    /// `size` must already include any padding the object's alignment
    /// needs; no allocation is ever partially granted.
    pub fn allocate(&mut self, size: usize) -> (r: Option<usize>)
        requires
            old(self).wf(),
        ensures
            final(self).wf(),
            old(self).spec_cursor() + size > old(self).spec_limit() ==> ({
                &&& r is None
                &&& *final(self) == *old(self)
            }),
            old(self).spec_cursor() + size <= old(self).spec_limit() ==> ({
                &&& r matches Some(start) && start == old(self).spec_cursor()
                &&& final(self).spec_cursor() == old(self).spec_cursor() + size
                &&& old(self).spec_cursor() + size <= BLOCK_SIZE
            }),
            final(self).spec_limit() == old(self).spec_limit(),
            final(self).spec_block() == old(self).spec_block(),
            final(self).spec_meta() == old(self).spec_meta(),
            old(self).spec_cursor() <= final(self).spec_cursor(),
    {
        if size > self.limit - self.cursor {
            None
        } else {
            let start = self.cursor;
            self.cursor = self.cursor + size;
            Some(start)
        }
    }

    /// Points bump allocation at a hole the collector found: the cursor
    /// and limit move to the hole's bounds, while the block and its marks
    /// stay as they are.
    pub fn reset_region(&mut self, cursor: usize, limit: usize)
        requires
            old(self).wf(),
            cursor <= limit,
            limit <= BLOCK_SIZE,
        ensures
            final(self).wf(),
            final(self).spec_cursor() == cursor,
            final(self).spec_limit() == limit,
            final(self).spec_block() == old(self).spec_block(),
            final(self).spec_meta() == old(self).spec_meta(),
    {
        self.cursor = cursor;
        self.limit = limit;
    }

    /// Records that line `index` of the owned block holds live data.
    pub fn mark_line(&mut self, index: usize)
        requires
            old(self).wf(),
            index < LINE_COUNT,
        ensures
            final(self).wf(),
            final(self).spec_meta().spec_marked(index as int),
            forall|j: int|
                0 <= j < LINE_COUNT && j != index ==> final(self).spec_meta().spec_marked(j) == old(
                    self,
                ).spec_meta().spec_marked(j),
            final(self).spec_cursor() == old(self).spec_cursor(),
            final(self).spec_limit() == old(self).spec_limit(),
            final(self).spec_block() == old(self).spec_block(),
    {
        self.meta.mark_line(index);
    }

    /// Whether line `index` of the owned block is marked.
    pub fn is_line_marked(&self, index: usize) -> (r: bool)
        requires
            self.wf(),
            index < LINE_COUNT,
        ensures
            r == self.spec_meta().spec_marked(index as int),
    {
        self.meta.is_marked(index)
    }

    /// Clears every line mark, at the start of a collection cycle.
    pub fn clear_marks(&mut self)
        requires
            old(self).wf(),
        ensures
            final(self).wf(),
            forall|i: int| 0 <= i < LINE_COUNT ==> !final(self).spec_meta().spec_marked(i),
            final(self).spec_cursor() == old(self).spec_cursor(),
            final(self).spec_limit() == old(self).spec_limit(),
            final(self).spec_block() == old(self).spec_block(),
    {
        self.meta.clear_all();
    }

    /// Byte offset at which the next allocation would start.
    pub fn cursor(&self) -> (c: usize)
        ensures
            c == self.spec_cursor(),
    {
        self.cursor
    }

    /// Byte offset one past the last usable byte of the current region.
    pub fn limit(&self) -> (l: usize)
        ensures
            l == self.spec_limit(),
    {
        self.limit
    }

    /// The owned block, for address arithmetic.
    pub fn block(&self) -> (b: &Block)
        ensures
            b == self.spec_block(),
    {
        &self.block
    }

    /// Releases the owned block back to its source, exactly once:
    /// consuming the pair makes a second release impossible.
    pub fn destroy(self, src: &mut RawBlockSource)
        requires
            old(src).wf(),
            self.wf(),
            self.spec_block().spec_ptr() + BLOCK_SIZE <= old(src).spec_next(),
        ensures
            *final(src) == *old(src),
    {
        self.block.destroy(src);
    }
}

/// Law of repeated bump allocation: from a fresh region over a whole
/// block (`cursor == 0`, `limit == BLOCK_SIZE`), allocating a constant
/// size `s` leaves the cursor at `n * s` after `n` grants (each grant
/// starts at the old cursor and advances it by `s`, so the granted
/// ranges are strictly increasing and non-overlapping), and the next
/// grant is given exactly when `n < BLOCK_SIZE / s`: exactly
/// `BLOCK_SIZE / s` allocations succeed before exhaustion is reported.
pub proof fn lemma_bump_fill(b: BumpBlock, s: int, n: int)
    requires
        b.wf(),
        b.spec_limit() == BLOCK_SIZE,
        1 <= s,
        0 <= n,
        b.spec_cursor() == n * s,
    ensures
        b.spec_cursor() + s <= b.spec_limit() <==> n < BLOCK_SIZE as int / s,
{
    let total = BLOCK_SIZE as int;
    vstd::arithmetic::div_mod::lemma_fundamental_div_mod(total, s);
    vstd::arithmetic::div_mod::lemma_mod_bound(total, s);
    let q = total / s;
    if n * s + s <= total {
        assert(n + 1 <= q) by (nonlinear_arith)
            requires
                total == s * q + total % s,
                0 <= total % s < s,
                n * s + s <= total,
                s >= 1,
        ;
    }
    if n + 1 <= q {
        assert(n * s + s <= total) by (nonlinear_arith)
            requires
                total == s * q + total % s,
                0 <= total % s,
                n + 1 <= q,
                s >= 1,
        ;
    }
}

} // verus!
