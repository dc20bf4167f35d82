//! Block-allocation core of a region-based memory manager.
//!
//! Fixed-size, power-of-two-aligned memory blocks are obtained from a raw
//! block source; objects are sub-allocated inside a block by bump-pointer
//! allocation, and per-line occupancy is tracked in a compact bitmap so a
//! collector can later reclaim partially-used blocks.

use vstd::prelude::*;

mod arith;
mod block;
mod bump;
mod meta;
mod source;

pub use arith::align_up;
pub use arith::is_pow2;
pub use block::Block;
pub use block::BlockError;
pub use block::BlockPtr;
pub use block::BlockSize;
pub use bump::lemma_bump_fill;
pub use bump::BumpBlock;
pub use meta::BlockMeta;
pub use source::RawBlockSource;

verus! {

/// log2 of the byte size of one block.
pub const BLOCK_SIZE_BITS: usize = 15;

/// Byte size of one block: 32 KiB.
pub const BLOCK_SIZE: usize = 32768;

/// log2 of the byte size of one line.
pub const LINE_SIZE_BITS: usize = 7;

/// Byte size of one line: 128 B, the unit of occupancy tracking.
pub const LINE_SIZE: usize = 128;

/// Number of lines in one block.
pub const LINE_COUNT: usize = 256;

/// Static validation of the block geometry: both sizes are the stated
/// powers of two and a block divides evenly into `LINE_COUNT` lines.
pub proof fn lemma_block_geometry()
    ensures
        BLOCK_SIZE == 1usize << BLOCK_SIZE_BITS,
        LINE_SIZE == 1usize << LINE_SIZE_BITS,
        is_pow2(BLOCK_SIZE as nat),
        is_pow2(LINE_SIZE as nat),
        BLOCK_SIZE == LINE_COUNT * LINE_SIZE,
{
    assert(32768usize == 1usize << 15usize) by (bit_vector);
    assert(128usize == 1usize << 7usize) by (bit_vector);
    reveal_with_fuel(is_pow2, 16);
    assert(is_pow2(BLOCK_SIZE as nat));
    assert(is_pow2(LINE_SIZE as nat));
}

} // verus!
