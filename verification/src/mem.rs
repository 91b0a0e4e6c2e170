//! UEFI Boot time allocator
//!
//! Pool memory is always 8-byte aligned. An allocation needing no more than
//! that is the pool block itself. For a larger alignment the allocator asks
//! for `align` bytes more, hands out the first aligned address at least 8
//! bytes into the block, and keeps the block's address in the 8 bytes just
//! before it, where freeing finds it again.
use vstd::prelude::*;

verus! {

/// UEFI always aligns pool allocations to 8.
pub const POOL_ALIGN: usize = 8;

/// The memory type allocations are made in: loader data
pub const LOADER_DATA: u32 = 2;

/// `q` rounded up to a multiple of `align`
pub open spec fn align_up(q: int, align: int) -> int {
    if q % align == 0 {
        q
    } else {
        q + (align - q % align)
    }
}

/// How many bytes more than the size are asked of the pool for alignment
/// `align`
pub open spec fn pool_extra(align: usize) -> int {
    if align > POOL_ALIGN {
        align as int
    } else {
        0
    }
}

/// The address handed out from the pool block at `pool`, for alignment
/// `align`
pub open spec fn alloc_addr(pool: int, align: usize) -> int {
    if align > POOL_ALIGN {
        align_up(pool + POOL_ALIGN, align as int)
    } else {
        pool
    }
}

/// The pool block that freeing the allocation at `ptr` of alignment `align`
/// frees, `stored` being the address kept just before it, if one is
pub open spec fn dealloc_of(ptr: int, align: usize, stored: Option<usize>) -> Option<int> {
    if ptr == 0 {
        None
    } else if align > POOL_ALIGN {
        match stored {
            Some(p) => Some(p as int),
            None => None,
        }
    } else {
        Some(ptr)
    }
}

/// Alignments that pool blocks can serve: those dividing the pool's own,
/// and multiples of it, as every power of two is
pub open spec fn align_ok(align: usize) -> bool {
    ||| (align > POOL_ALIGN && align % POOL_ALIGN == 0)
    ||| (0 < align <= POOL_ALIGN && POOL_ALIGN % align == 0)
}

/// A UEFI memory allocator, on top of pool allocations
pub struct UefiAlloc {
    _priv: (),
}

impl UefiAlloc {
    /// The allocator
    pub fn new() -> Self {
        Self { _priv: () }
    }

    /// How many bytes more than the size are asked of the pool for
    /// alignment `align`
    pub fn extra(align: usize) -> (r: usize)
        ensures
            r == pool_extra(align),
    {
        if align > POOL_ALIGN {
            align
        } else {
            0
        }
    }

    /// The pool size to ask for an allocation of `size` bytes aligned to
    /// `align`, as a layout allows them: `size` rounded up to `align` fits
    /// in an `isize`
    pub fn pool_size(size: usize, align: usize) -> (r: usize)
        requires
            size + align <= isize::MAX + 1,
        ensures
            r == size + pool_extra(align),
    {
        size + UefiAlloc::extra(align)
    }

    /// The address handed out for the pool block at `pool`, or zero (null)
    /// where the pool allocation failed
    pub fn alloc_address(pool: Option<usize>, align: usize) -> (r: usize)
        requires
            align > 0,
            pool matches Some(p) ==> p + POOL_ALIGN + align <= usize::MAX,
        ensures
            r == match pool {
                Some(p) => alloc_addr(p as int, align) as usize,
                None => 0usize,
            },
            pool is Some && align > POOL_ALIGN ==> r % align == 0,
    {
        match pool {
            None => 0,
            Some(p) => {
                if align > POOL_ALIGN {
                    let q: usize = p + POOL_ALIGN;
                    let rem: usize = q % align;
                    proof {
                        lemma_align_up(q as int, align as int);
                    }
                    if rem == 0 {
                        q
                    } else {
                        q + (align - rem)
                    }
                } else {
                    p
                }
            },
        }
    }

    /// Where the pool block's address is kept for the allocation at `addr`
    /// of alignment `align`: the 8 bytes before it, where there is a header
    pub fn header_slot(addr: usize, align: usize) -> (r: Option<usize>)
        requires
            addr != 0 && align > POOL_ALIGN ==> addr >= POOL_ALIGN,
        ensures
            r == (if addr != 0 && align > POOL_ALIGN {
                Some((addr - POOL_ALIGN) as usize)
            } else {
                None::<usize>
            }),
    {
        if addr != 0 && align > POOL_ALIGN {
            Some(addr - POOL_ALIGN)
        } else {
            None
        }
    }

    /// The pool block to free for the allocation at `ptr` of alignment
    /// `align`, `stored` being what its header holds where it has one; none
    /// for a null pointer
    pub fn dealloc_address(ptr: usize, align: usize, stored: Option<usize>) -> (r: Option<usize>)
        requires
            ptr != 0 && align > POOL_ALIGN ==> stored is Some,
        ensures
            match r {
                Some(p) => dealloc_of(ptr as int, align, stored) == Some(p as int),
                None => dealloc_of(ptr as int, align, stored) is None,
            },
    {
        if ptr == 0 {
            return None;
        }
        if align > POOL_ALIGN {
            stored
        } else {
            Some(ptr)
        }
    }
}

/// Rounding up gives a multiple of the alignment, less than one alignment
/// further
pub proof fn lemma_align_up(q: int, align: int)
    requires
        q >= 0,
        align > 0,
    ensures
        align_up(q, align) % align == 0,
        q <= align_up(q, align) < q + align,
{
    vstd::arithmetic::div_mod::lemma_fundamental_div_mod(q, align);
    let k = q / align;
    if q % align != 0 {
        assert(q + (align - q % align) == align * (k + 1)) by (nonlinear_arith)
            requires
                q == align * k + q % align,
        ;
        vstd::arithmetic::div_mod::lemma_mod_multiples_basic(k + 1, align);
        assert((k + 1) * align == align * (k + 1)) by (nonlinear_arith);
    }
}

/// An allocation from a pool block, which firmware aligns to 8, is aligned
/// as asked, lies inside the block, and where it has a header, the header
/// lies inside the block too
pub proof fn lemma_allocation_in_pool(pool: usize, size: usize, align: usize)
    requires
        pool % POOL_ALIGN == 0,
        align_ok(align),
    ensures
        ({
            let r = alloc_addr(pool as int, align);
            &&& r % (align as int) == 0
            &&& pool <= r
            &&& r + size <= pool + size + pool_extra(align)
            &&& align > POOL_ALIGN ==> pool <= r - POOL_ALIGN
        }),
{
    if align > POOL_ALIGN {
        let q = pool + POOL_ALIGN;
        lemma_align_up(q, align as int);
        let m = align / POOL_ALIGN;
        assert(align == POOL_ALIGN * m);
        vstd::arithmetic::div_mod::lemma_mod_mod(q, POOL_ALIGN as int, m as int);
        assert(q % 8 == 0);
        if q % (align as int) != 0 {
            assert((q % (align as int)) % 8 == 0);
            assert(q % (align as int) >= 8);
        }
    } else {
        if align != 1 && align != 2 && align != 4 && align != 8 {
            if align == 3 {
                assert(8usize % 3 == 2);
            } else if align == 5 {
                assert(8usize % 5 == 3);
            } else if align == 6 {
                assert(8usize % 6 == 2);
            } else {
                assert(align == 7);
                assert(8usize % 7 == 1);
            }
        }
        assert(pool % align == 0);
    }
}

/// Freeing an allocation, its header holding the pool block's address where
/// it has one, frees the pool block it was handed out from
pub proof fn lemma_dealloc_returns_pool(pool: usize, align: usize)
    requires
        pool != 0,
        align > 0,
        pool + POOL_ALIGN + align <= usize::MAX,
    ensures
        ({
            let r = alloc_addr(pool as int, align);
            let stored = if align > POOL_ALIGN { Some(pool) } else { None::<usize> };
            &&& r != 0
            &&& align > POOL_ALIGN ==> r >= POOL_ALIGN
            &&& dealloc_of(r, align, stored) == Some(pool as int)
        }),
{
    if align > POOL_ALIGN {
        lemma_align_up(pool + POOL_ALIGN, align as int);
    }
}

} // verus!
