//! Power-of-two testing and alignment arithmetic for block sizes and
//! addresses.

use vstd::prelude::*;

verus! {

/// A positive integer is a power of two when repeated halving reaches one
/// without ever meeting an odd intermediate value.
pub open spec fn is_pow2(n: nat) -> bool
    decreases n,
{
    if n == 0 {
        false
    } else if n == 1 {
        true
    } else {
        n % 2 == 0 && is_pow2(n / 2)
    }
}

/// Smallest multiple of `align` that is at least `addr`.
pub open spec fn align_up(addr: int, align: int) -> int
    recommends
        align > 0,
        addr >= 0,
{
    if addr % align == 0 {
        addr
    } else {
        addr + align - addr % align
    }
}

/// Rounding up to a positive alignment lands on a multiple of it, never
/// moves backwards, and advances by less than one whole alignment unit.
pub proof fn lemma_align_up(addr: int, align: int)
    requires
        align > 0,
        addr >= 0,
    ensures
        align_up(addr, align) % align == 0,
        addr <= align_up(addr, align) < addr + align,
{
    let r = addr % align;
    vstd::arithmetic::div_mod::lemma_mod_bound(addr, align);
    if r != 0 {
        let q = addr / align;
        vstd::arithmetic::div_mod::lemma_fundamental_div_mod(addr, align);
        assert(addr + align - r == (q + 1) * align) by (nonlinear_arith)
            requires
                addr == align * q + r,
        ;
        vstd::arithmetic::div_mod::lemma_mod_multiples_basic(q + 1, align);
    }
}

/// Decides whether `size` is a power of two.
pub fn is_power_of_two(size: usize) -> (r: bool)
    ensures
        r == is_pow2(size as nat),
{
    if size == 0 {
        return false;
    }
    let mut n: usize = size;
    while n > 1
        invariant
            n >= 1,
            is_pow2(size as nat) == is_pow2(n as nat),
        decreases n,
    {
        if n % 2 != 0 {
            return false;
        }
        n = n / 2;
    }
    true
}

} // verus!
