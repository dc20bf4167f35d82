//! The raw block source: the operating allocator, modeled as a span of
//! addresses from which size-aligned regions are handed out.
//!
//! The model keeps the next unreserved address and a capacity. A request
//! for `size` bytes aligned to `size` bytes is granted at the next aligned
//! address if the region still fits below the capacity, and fails with
//! `OOM` otherwise. Addresses are never reissued, so a region stays valid
//! until released. A source with a small capacity doubles as an exhausted
//! allocator for exercising out-of-memory paths.

use crate::arith::align_up;
use crate::arith::is_pow2;
use crate::arith::lemma_align_up;
use crate::block::BlockError;
use vstd::prelude::*;

verus! {

/// Acquires and releases raw, size-and-alignment-matched memory regions.
pub struct RawBlockSource {
    next: usize,
    capacity: usize,
}

impl RawBlockSource {
    /// The lowest address not yet handed out.
    pub closed spec fn spec_next(&self) -> int {
        self.next as int
    }

    /// One past the highest address this source can hand out.
    pub closed spec fn spec_capacity(&self) -> int {
        self.capacity as int
    }

    /// The handed-out span never exceeds the capacity, which itself is an
    /// address, so it fits the machine word.
    pub open spec fn wf(&self) -> bool {
        0 <= self.spec_next() <= self.spec_capacity() <= usize::MAX
    }

    /// Whether a request for `size` bytes aligned to `size` bytes can
    /// currently be granted.
    pub open spec fn can_grant(&self, size: int) -> bool {
        align_up(self.spec_next(), size) + size <= self.spec_capacity()
    }

    /// A fresh source with `capacity` bytes of address span.
    pub fn new(capacity: usize) -> (s: Self)
        ensures
            s.wf(),
            s.spec_next() == 0,
            s.spec_capacity() == capacity,
    {
        RawBlockSource { next: 0, capacity }
    }

    /// The lowest address not yet handed out; address 0 means no region
    /// has been granted yet.
    pub fn next_addr(&self) -> (a: usize)
        ensures
            a == self.spec_next(),
    {
        self.next
    }

    /// The capacity this source was created with.
    pub fn capacity(&self) -> (c: usize)
        ensures
            c == self.spec_capacity(),
    {
        self.capacity
    }

    /// Requests `size` bytes aligned to `size` bytes. The caller asserts
    /// that `size` is a power of two; it is not re-validated here. Fails
    /// with `OOM`, leaving the source untouched, exactly when the aligned
    /// region does not fit below the capacity.
    pub fn allocate(&mut self, size: usize) -> (r: Result<usize, BlockError>)
        requires
            old(self).wf(),
            is_pow2(size as nat),
        ensures
            final(self).wf(),
            final(self).spec_capacity() == old(self).spec_capacity(),
            r is Ok <==> old(self).can_grant(size as int),
            r matches Ok(addr) ==> ({
                &&& addr as int == align_up(old(self).spec_next(), size as int)
                &&& addr as int % size as int == 0
                &&& old(self).spec_next() <= addr
                &&& addr + size <= old(self).spec_capacity()
                &&& final(self).spec_next() == addr + size
            }),
            r matches Err(e) ==> e == BlockError::OOM && *final(self) == *old(self),
    {
        proof {
            lemma_align_up(self.next as int, size as int);
        }
        let rem: usize = self.next % size;
        let pad: usize = if rem == 0 {
            0
        } else {
            size - rem
        };
        if pad > self.capacity - self.next {
            Err(BlockError::OOM)
        } else {
            let addr: usize = self.next + pad;
            if size > self.capacity - addr {
                Err(BlockError::OOM)
            } else {
                self.next = addr + size;
                Ok(addr)
            }
        }
    }

    /// Returns a region to the allocator. The caller must pass the exact
    /// address and size granted at allocation time; the model enforces
    /// that discipline and reissues nothing, so the source is unchanged.
    pub fn release(&mut self, addr: usize, size: usize)
        requires
            old(self).wf(),
            is_pow2(size as nat),
            addr as int % size as int == 0,
            addr + size <= old(self).spec_next(),
        ensures
            *final(self) == *old(self),
    {
    }
}

} // verus!
