//! Request descriptors: a `Layout` pairs a requested size in bytes with a
//! required alignment, mirroring the shape of allocation requests that a
//! global-allocator interface hands to an allocator.

use vstd::prelude::*;

verus! {

use vstd::arithmetic::power2::is_pow2;

/// A memory-request descriptor: `size` bytes at an address that is a
/// multiple of `align`. A layout is well formed when the alignment is a
/// power of two and the size, rounded up to the alignment, stays within
/// `isize::MAX` — the same conditions a standard allocation interface
/// imposes on its layouts.
#[derive(Clone, Copy, PartialEq, Eq, Structural, Debug)]
pub struct Layout {
    pub size: usize,
    pub align: usize,
}

/// The largest size that a well-formed layout of alignment `align` may
/// request: rounding `size` up to a multiple of `align` must not exceed
/// `isize::MAX`, which equals `usize::MAX / 2`.
pub open spec fn fits_size_limit(size: usize, align: usize) -> bool
    recommends
        align >= 1,
{
    size + align - 1 <= usize::MAX as int / 2
}

/// The conditions under which `(size, align)` describes a valid request.
pub open spec fn valid_size_align(size: usize, align: usize) -> bool {
    is_pow2(align as int) && fits_size_limit(size, align)
}

impl Layout {
    /// Well-formedness of a layout: established by `from_size_align` and
    /// assumed by every facade operation.
    pub open spec fn wf(self) -> bool {
        valid_size_align(self.size, self.align)
    }

    /// Builds a layout from a size and an alignment, rejecting exactly the
    /// pairs that `valid_size_align` rules out: an alignment that is not a
    /// power of two, or a size that would overflow once rounded up to the
    /// alignment.
    pub fn from_size_align(size: usize, align: usize) -> (r: Option<Layout>)
        ensures
            r is Some <==> valid_size_align(size, align),
            r matches Some(l) ==> l == (Layout { size, align }) && l.wf(),
    {
        if is_power_of_two(align) {
            proof {
                lemma_pow2_positive(align as int);
            }
            match size.checked_add(align - 1) {
                Some(rounded) if rounded <= usize::MAX / 2 => Some(Layout { size, align }),
                _ => None,
            }
        } else {
            None
        }
    }

    /// The requested size in bytes.
    pub fn size(&self) -> (s: usize)
        ensures
            s == self.size,
    {
        self.size
    }

    /// The required alignment in bytes.
    pub fn align(&self) -> (a: usize)
        ensures
            a == self.align,
    {
        self.align
    }
}

/// A power of two is at least one.
pub proof fn lemma_pow2_positive(n: int)
    requires
        is_pow2(n),
    ensures
        n >= 1,
{
    reveal(is_pow2);
}

/// Halving a positive even number preserves whether it is a power of two.
proof fn lemma_pow2_halving(n: int)
    requires
        n >= 2,
        n % 2 == 0,
    ensures
        is_pow2(n) == is_pow2(n / 2),
{
    reveal(is_pow2);
}

/// Decides whether `x` is a power of two by stripping factors of two.
pub fn is_power_of_two(x: usize) -> (r: bool)
    ensures
        r == is_pow2(x as int),
{
    if x == 0 {
        proof {
            reveal(is_pow2);
        }
        return false;
    }
    let mut y: usize = x;
    while y % 2 == 0
        invariant
            y >= 1,
            is_pow2(x as int) == is_pow2(y as int),
        decreases y,
    {
        proof {
            lemma_pow2_halving(y as int);
        }
        y = y / 2;
    }
    proof {
        reveal(is_pow2);
    }
    y == 1
}

} // verus!
