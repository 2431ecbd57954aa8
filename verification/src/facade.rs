//! The allocator facade: normalizes allocation requests before delegating
//! them to a backend engine. Zero-size requests never reach the backend —
//! they all share one fixed sentinel address — and resizes across the zero
//! boundary are rewritten into the allocate / deallocate calls that
//! backends actually support. Null addresses are absorbed as no-ops where
//! the interface demands it.

use vstd::prelude::*;

verus! {

use crate::backend::{engine_inv, Backend, SENTINEL_ADDR};
use crate::layout::{valid_size_align, Layout};

/// What a (possibly zero-size) allocation guarantees: a zero-size request
/// returns the sentinel and leaves the engine untouched; a non-zero
/// request either fails with no change to the live blocks, or returns a
/// fresh, aligned, non-null, non-sentinel address now tracking a block of
/// the requested size and alignment, with every other block unchanged.
pub open spec fn alloc_post<B: Backend>(pre: B, post: B, layout: Layout, r: Option<
    usize,
>) -> bool {
    if layout.size == 0 {
        &&& r == Some(SENTINEL_ADDR)
        &&& post == pre
    } else {
        match r {
            None => post.live() == pre.live(),
            Some(a) => {
                &&& a != 0
                &&& a != SENTINEL_ADDR
                &&& a % layout.align == 0
                &&& !pre.live().contains_key(a)
                &&& post.live().dom() == pre.live().dom().insert(a)
                &&& forall|k: usize|
                    k != a && #[trigger] pre.live().contains_key(k) ==> post.live()[k]
                        == pre.live()[k]
                &&& post.live()[a].align == layout.align
                &&& post.live()[a].size == layout.size
                &&& post.live()[a].bytes.len() == layout.size
            },
        }
    }
}

/// `alloc_post`, strengthened with the zeroing guarantee: on the non-zero
/// path every byte of the returned block reads as zero.
pub open spec fn alloc_zeroed_post<B: Backend>(pre: B, post: B, layout: Layout, r: Option<
    usize,
>) -> bool {
    &&& alloc_post(pre, post, layout, r)
    &&& match r {
        Some(a) => layout.size > 0 ==> forall|i: int|
            0 <= i < layout.size ==> post.live()[a].bytes[i] == 0u8,
        None => true,
    }
}

/// What a deallocation guarantees: a null address or a zero-size layout is
/// a no-op that never reaches the backend; otherwise exactly the named
/// block is removed and every other live block is untouched.
pub open spec fn dealloc_post<B: Backend>(pre: B, post: B, addr: usize, layout: Layout) -> bool {
    if addr == 0 || layout.size == 0 {
        post == pre
    } else {
        &&& post.live() == pre.live().remove(addr)
        &&& !post.live().contains_key(addr)
        &&& forall|k: usize|
            k != addr && #[trigger] pre.live().contains_key(k) ==> post.live().contains_key(k)
                && post.live()[k] == pre.live()[k]
    }
}

/// What a reallocation guarantees, split on whether the old and the new
/// size are zero: both zero yields the sentinel with no backend call;
/// growing from zero is exactly a fresh allocation (or an absent result if
/// the grown layout would be invalid); shrinking to zero frees the block
/// and yields an absent result; and an ordinary resize either fails with
/// no change, or moves the block to a non-null aligned address of the new
/// size, preserving the leading bytes and every other block.
pub open spec fn realloc_post<B: Backend>(
    pre: B,
    post: B,
    addr: usize,
    layout: Layout,
    new_size: usize,
    r: Option<usize>,
) -> bool {
    if layout.size == 0 && new_size == 0 {
        &&& r == Some(SENTINEL_ADDR)
        &&& post == pre
    } else if layout.size == 0 {
        if valid_size_align(new_size, layout.align) {
            alloc_post(pre, post, Layout { size: new_size, align: layout.align }, r)
        } else {
            &&& r is None
            &&& post == pre
        }
    } else if new_size == 0 {
        &&& r is None
        &&& dealloc_post(pre, post, addr, layout)
    } else {
        match r {
            None => post.live() == pre.live(),
            Some(a) => {
                &&& a != 0
                &&& a != SENTINEL_ADDR
                &&& a % layout.align == 0
                &&& a == addr || !pre.live().contains_key(a)
                &&& post.live().dom() == pre.live().dom().remove(addr).insert(a)
                &&& forall|k: usize|
                    k != addr && k != a && #[trigger] pre.live().contains_key(k)
                        ==> post.live()[k] == pre.live()[k]
                &&& post.live()[a].align == layout.align
                &&& post.live()[a].size == new_size
                &&& post.live()[a].bytes.len() == new_size
                &&& forall|i: int|
                    0 <= i < layout.size && i < new_size ==> post.live()[a].bytes[i]
                        == pre.live()[addr].bytes[i]
            },
        }
    }
}

/// What the usable-size query guarantees: unknown for a null address, and
/// otherwise at least the size the live block was requested with.
pub open spec fn usable_size_post<B: Backend>(heap: B, addr: usize, r: Option<usize>) -> bool {
    if addr == 0 {
        r is None
    } else {
        r matches Some(u) && u >= heap.live()[addr].size
    }
}

/// The allocator facade. It holds no state of its own — every operation is
/// a function of its arguments and the backend engine it is handed — so a
/// single facade value can be copied and shared freely.
#[derive(Clone, Copy, PartialEq, Eq, Structural, Debug)]
pub struct SnMalloc;

impl SnMalloc {
    /// A facade value; all facade values are interchangeable.
    pub fn new() -> (s: Self)
        ensures
            s == SnMalloc,
    {
        SnMalloc
    }

    /// The address that stands for every zero-size allocation.
    fn handle_zst(&self) -> (a: usize)
        ensures
            a == SENTINEL_ADDR,
    {
        SENTINEL_ADDR
    }

    /// Allocates memory with the given layout. A zero-size layout yields
    /// the sentinel address without touching the backend; otherwise the
    /// request is delegated to the backend, and exhaustion surfaces as an
    /// absent result.
    pub fn safe_alloc<B: Backend>(&self, heap: &mut B, layout: Layout) -> (r: Option<usize>)
        requires
            engine_inv(*old(heap)),
            layout.wf(),
        ensures
            engine_inv(*final(heap)),
            alloc_post(*old(heap), *final(heap), layout, r),
    {
        if layout.size() == 0 {
            Some(self.handle_zst())
        } else {
            let a = heap.allocate(layout.align(), layout.size());
            if a == 0 {
                None
            } else {
                Some(a)
            }
        }
    }

    /// Allocates zero-initialized memory with the given layout. The
    /// zero-size path yields the sentinel (zero bytes hold vacuously);
    /// otherwise the backend's zeroing primitive is used.
    pub fn safe_alloc_zeroed<B: Backend>(&self, heap: &mut B, layout: Layout) -> (r: Option<usize>)
        requires
            engine_inv(*old(heap)),
            layout.wf(),
        ensures
            engine_inv(*final(heap)),
            alloc_zeroed_post(*old(heap), *final(heap), layout, r),
    {
        if layout.size() == 0 {
            Some(self.handle_zst())
        } else {
            let a = heap.allocate_zeroed(layout.align(), layout.size());
            if a == 0 {
                None
            } else {
                Some(a)
            }
        }
    }

    /// Deallocates the block at `addr` with the layout it was allocated
    /// with. A null address or a zero-size layout — the sentinel case — is
    /// a no-op: the sentinel is static storage and must never reach the
    /// backend's deallocation primitive.
    pub fn safe_dealloc<B: Backend>(&self, heap: &mut B, addr: usize, layout: Layout)
        requires
            engine_inv(*old(heap)),
            layout.wf(),
            addr != 0 && layout.size > 0 ==> old(heap).live().contains_key(addr) && old(
                heap,
            ).live()[addr].align == layout.align && old(heap).live()[addr].size == layout.size,
        ensures
            engine_inv(*final(heap)),
            dealloc_post(*old(heap), *final(heap), addr, layout),
    {
        if addr != 0 && layout.size() > 0 {
            heap.deallocate(addr, layout.align(), layout.size());
        }
    }

    /// Resizes the block at `addr`, allocated with `layout`, to `new_size`
    /// bytes. The four degenerate combinations of zero sizes are absorbed
    /// here, so the backend's resize primitive only ever sees non-zero
    /// sizes and a non-null address.
    pub fn safe_realloc<B: Backend>(
        &self,
        heap: &mut B,
        addr: usize,
        layout: Layout,
        new_size: usize,
    ) -> (r: Option<usize>)
        requires
            engine_inv(*old(heap)),
            layout.wf(),
            layout.size > 0 && new_size > 0 ==> addr != 0,
            layout.size > 0 && addr != 0 ==> old(heap).live().contains_key(addr) && old(
                heap,
            ).live()[addr].align == layout.align && old(heap).live()[addr].size == layout.size,
        ensures
            engine_inv(*final(heap)),
            realloc_post(*old(heap), *final(heap), addr, layout, new_size, r),
    {
        if layout.size() == 0 && new_size == 0 {
            Some(self.handle_zst())
        } else if layout.size() == 0 {
            match Layout::from_size_align(new_size, layout.align()) {
                Some(new_layout) => self.safe_alloc(heap, new_layout),
                None => None,
            }
        } else if new_size == 0 {
            self.safe_dealloc(heap, addr, layout);
            None
        } else {
            let a = heap.reallocate(addr, layout.align(), layout.size(), new_size);
            if a == 0 {
                None
            } else {
                Some(a)
            }
        }
    }

    /// Allocates memory with the given layout, exactly as `safe_alloc`
    /// does: the sentinel for a zero-size request, the backend's answer
    /// otherwise.
    pub fn alloc_aligned<B: Backend>(&self, heap: &mut B, layout: Layout) -> (r: Option<usize>)
        requires
            engine_inv(*old(heap)),
            layout.wf(),
        ensures
            engine_inv(*final(heap)),
            alloc_post(*old(heap), *final(heap), layout, r),
    {
        if layout.size() == 0 {
            Some(self.handle_zst())
        } else {
            let a = heap.allocate(layout.align(), layout.size());
            if a == 0 {
                None
            } else {
                Some(a)
            }
        }
    }

    /// Reports the usable capacity of the live block at `addr`: unknown
    /// for a null address, and otherwise the backend's answer, which is at
    /// least the size the block was requested with.
    pub fn usable_size<B: Backend>(&self, heap: &B, addr: usize) -> (r: Option<usize>)
        requires
            engine_inv(*heap),
            addr != 0 ==> heap.live().contains_key(addr),
        ensures
            usable_size_post(*heap, addr, r),
    {
        if addr == 0 {
            None
        } else {
            Some(heap.usable_size(addr))
        }
    }
}

/// Law: every zero-size allocation yields the one sentinel address and
/// leaves the engine untouched, whatever the layout, the engine state, or
/// the number of calls.
pub proof fn lemma_zero_size_allocs_share_sentinel<B: Backend>(
    pre1: B,
    post1: B,
    l1: Layout,
    r1: Option<usize>,
    pre2: B,
    post2: B,
    l2: Layout,
    r2: Option<usize>,
)
    requires
        l1.size == 0,
        l2.size == 0,
        alloc_post(pre1, post1, l1, r1),
        alloc_post(pre2, post2, l2, r2),
    ensures
        r1 == Some(SENTINEL_ADDR),
        r1 == r2,
        post1 == pre1,
        post2 == pre2,
{
}

/// Law: under the engine invariant the sentinel is never a live backend
/// block, so no deallocation that reaches the backend can name the
/// sentinel.
pub proof fn lemma_sentinel_never_backed<B: Backend>(heap: B)
    requires
        engine_inv(heap),
    ensures
        !heap.live().contains_key(SENTINEL_ADDR),
{
}

/// Law: freeing one block leaves every other live block — bytes included —
/// exactly as it was.
pub proof fn lemma_dealloc_preserves_others<B: Backend>(
    pre: B,
    post: B,
    addr: usize,
    layout: Layout,
    other: usize,
)
    requires
        addr != 0,
        layout.size > 0,
        dealloc_post(pre, post, addr, layout),
        other != addr,
        pre.live().contains_key(other),
    ensures
        post.live().contains_key(other),
        post.live()[other] == pre.live()[other],
{
}

/// Law: growing a zero-size allocation behaves exactly like a fresh
/// allocation with the old alignment and the new size.
pub proof fn lemma_realloc_from_zero_is_alloc<B: Backend>(
    pre: B,
    post: B,
    addr: usize,
    layout: Layout,
    new_size: usize,
    r: Option<usize>,
)
    requires
        layout.size == 0,
        new_size > 0,
        valid_size_align(new_size, layout.align),
        realloc_post(pre, post, addr, layout, new_size, r),
    ensures
        alloc_post(pre, post, Layout { size: new_size, align: layout.align }, r),
{
}

/// Law: shrinking a live block to zero frees it and yields an absent
/// result; the old address no longer names a live block.
pub proof fn lemma_realloc_to_zero_frees<B: Backend>(
    pre: B,
    post: B,
    addr: usize,
    layout: Layout,
    r: Option<usize>,
)
    requires
        addr != 0,
        layout.size > 0,
        realloc_post(pre, post, addr, layout, 0, r),
    ensures
        r is None,
        post.live() == pre.live().remove(addr),
        !post.live().contains_key(addr),
{
}

/// Law: a successful allocation followed by a usable-size query reports at
/// least the size that was requested.
pub proof fn lemma_usable_size_covers_request<B: Backend>(
    pre: B,
    mid: B,
    layout: Layout,
    a: usize,
    u: usize,
)
    requires
        layout.size > 0,
        alloc_post(pre, mid, layout, Some(a)),
        usable_size_post(mid, a, Some(u)),
    ensures
        u >= layout.size,
{
}

} // verus!
