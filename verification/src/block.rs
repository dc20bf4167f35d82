//! A block: one fixed-size, self-aligned memory region, exclusively owned
//! by a single allocation context.

use crate::arith::align_up;
use crate::arith::is_power_of_two;
use crate::arith::is_pow2;
use crate::source::RawBlockSource;
use vstd::prelude::*;

verus! {

/// Base address of a block region, as a byte address in the source's span.
pub type BlockPtr = usize;

/// Byte size of a block region.
pub type BlockSize = usize;

/// Failure modes of block creation.
#[derive(Clone, Copy, Debug, PartialEq, Eq, Structural)]
pub enum BlockError {
    /// The requested size is not a power of two; such a request never
    /// reaches the raw block source.
    BadRequest,
    /// The raw block source could not satisfy a size-and-alignment
    /// request.
    OOM,
}

/// One raw memory region. The size is stored beside the address for the
/// whole lifetime, so that release always uses the exact creation size.
pub struct Block {
    ptr: BlockPtr,
    size: BlockSize,
}

impl Block {
    /// Base address of the owned region.
    pub closed spec fn spec_ptr(&self) -> int {
        self.ptr as int
    }

    /// Byte size of the owned region.
    pub closed spec fn spec_size(&self) -> int {
        self.size as int
    }

    /// The size is a power of two and the base address is aligned to it,
    /// which is what makes masking an address down to its block start
    /// possible.
    pub open spec fn wf(&self) -> bool {
        &&& is_pow2(self.spec_size() as nat)
        &&& self.spec_ptr() % self.spec_size() == 0
        &&& self.spec_ptr() + self.spec_size() <= usize::MAX
    }

    /// Requests a block of `size` bytes from `src`. A size that is not a
    /// power of two is rejected with `BadRequest` before the source is
    /// ever consulted; otherwise the source's failure is passed through as
    /// `OOM`, and success yields a block whose base is aligned to `size`.
    pub fn new(src: &mut RawBlockSource, size: BlockSize) -> (r: Result<Block, BlockError>)
        requires
            old(src).wf(),
        ensures
            final(src).wf(),
            final(src).spec_capacity() == old(src).spec_capacity(),
            !is_pow2(size as nat) ==> ({
                &&& r matches Err(e) && e == BlockError::BadRequest
                &&& *final(src) == *old(src)
            }),
            is_pow2(size as nat) ==> ({
                &&& (r is Ok <==> old(src).can_grant(size as int))
                &&& (r matches Err(e) ==> e == BlockError::OOM && *final(src) == *old(src))
                &&& (r matches Ok(b) ==> {
                    &&& b.wf()
                    &&& b.spec_size() == size
                    &&& b.spec_ptr() == align_up(old(src).spec_next(), size as int)
                    &&& old(src).spec_next() <= b.spec_ptr()
                    &&& b.spec_ptr() + size <= old(src).spec_capacity()
                    &&& final(src).spec_next() == b.spec_ptr() + size
                })
            }),
    {
        if !is_power_of_two(size) {
            return Err(BlockError::BadRequest);
        }
        match src.allocate(size) {
            Ok(ptr) => Ok(Block { ptr, size }),
            Err(e) => Err(e),
        }
    }

    /// Base address of the owned region, for offset arithmetic and for
    /// masking an address down to the start of its block.
    pub fn as_ptr(&self) -> (p: BlockPtr)
        ensures
            p == self.spec_ptr(),
    {
        self.ptr
    }

    /// The stored creation size.
    pub fn size(&self) -> (s: BlockSize)
        ensures
            s == self.spec_size(),
    {
        self.size
    }

    /// Returns the region to the source it was granted from, with the
    /// stored creation size. Consuming the block makes a second release
    /// impossible.
    pub fn destroy(self, src: &mut RawBlockSource)
        requires
            old(src).wf(),
            self.wf(),
            self.spec_ptr() + self.spec_size() <= old(src).spec_next(),
        ensures
            *final(src) == *old(src),
    {
        src.release(self.ptr, self.size);
    }
}

} // verus!
