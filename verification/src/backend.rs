//! The backend capability: the five primitive operations an allocation
//! engine must provide, stated over an abstract view of the engine's live
//! allocations. The facade is written once against this trait; any engine
//! that honors these contracts can stand behind it.

use vstd::prelude::*;

verus! {

use vstd::arithmetic::power2::is_pow2;

/// The fixed address handed out for every zero-size allocation. It stands
/// for a statically allocated, 16-byte-aligned sentinel object: it is never
/// zero, never freed, and never part of the backend's heap.
pub const SENTINEL_ADDR: usize = 16;

/// The abstract view of one live allocation: the alignment and size it was
/// requested with, and the bytes it currently holds.
pub struct BlockView {
    pub align: usize,
    pub size: usize,
    pub bytes: Seq<u8>,
}

/// The invariant the facade maintains of any engine it drives: the engine's
/// own invariant holds, and the sentinel — static storage, not heap — is
/// not among the engine's live blocks. The operations' contracts preserve
/// it: allocation never returns the sentinel address, and the other
/// operations only shrink or move the set of live addresses.
pub open spec fn engine_inv<B: Backend>(heap: B) -> bool {
    &&& heap.wf()
    &&& !heap.live().contains_key(SENTINEL_ADDR)
}

/// An allocation engine, abstracted as a map from addresses to live blocks.
///
/// Each operation's contract states only what a size-and-alignment-based
/// allocator guarantees: allocation returns either a null address (the
/// engine is out of memory) or a fresh, aligned, non-null address tracking a
/// block of the requested size; deallocation removes exactly the named
/// block; reallocation moves a block, preserving its leading bytes; the
/// usable-size query reports at least the size the block was requested
/// with. The sentinel address is static storage, not heap, so the engine
/// never hands it out and is never asked to free it.
pub trait Backend: Sized {
    /// The engine's live allocations, keyed by address. The default view
    /// is an engine with no observable heap — under it, `allocate` can
    /// only ever report exhaustion — so an engine that hands out memory
    /// overrides this with its own view.
    open spec fn live(&self) -> Map<usize, BlockView> {
        Map::empty()
    }

    /// The engine's internal invariant, established by its constructor and
    /// preserved by every operation.
    open spec fn wf(&self) -> bool {
        true
    }

    /// Allocates `size` bytes aligned to `align`; returns the address of a
    /// fresh block, or zero if the engine cannot satisfy the request.
    fn allocate(&mut self, align: usize, size: usize) -> (r: usize)
        requires
            old(self).wf(),
            is_pow2(align as int),
            size > 0,
        ensures
            final(self).wf(),
            r == 0 ==> final(self).live() == old(self).live(),
            r != 0 ==> {
                &&& r != SENTINEL_ADDR
                &&& r % align == 0
                &&& !old(self).live().contains_key(r)
                &&& final(self).live().dom() == old(self).live().dom().insert(r)
                &&& forall|k: usize|
                    k != r && #[trigger] old(self).live().contains_key(k)
                        ==> final(self).live()[k] == old(self).live()[k]
                &&& final(self).live()[r].align == align
                &&& final(self).live()[r].size == size
                &&& final(self).live()[r].bytes.len() == size
            },
    ;

    /// Like `allocate`, but every byte of the returned block reads as zero.
    fn allocate_zeroed(&mut self, align: usize, size: usize) -> (r: usize)
        requires
            old(self).wf(),
            is_pow2(align as int),
            size > 0,
        ensures
            final(self).wf(),
            r == 0 ==> final(self).live() == old(self).live(),
            r != 0 ==> {
                &&& r != SENTINEL_ADDR
                &&& r % align == 0
                &&& !old(self).live().contains_key(r)
                &&& final(self).live().dom() == old(self).live().dom().insert(r)
                &&& forall|k: usize|
                    k != r && #[trigger] old(self).live().contains_key(k)
                        ==> final(self).live()[k] == old(self).live()[k]
                &&& final(self).live()[r].align == align
                &&& final(self).live()[r].size == size
                &&& final(self).live()[r].bytes.len() == size
                &&& forall|i: int| 0 <= i < size ==> final(self).live()[r].bytes[i] == 0u8
            },
    ;

    /// Frees the block at `addr`, which must be live and must carry the
    /// alignment and size it was allocated with. Every other block is left
    /// untouched.
    fn deallocate(&mut self, addr: usize, align: usize, size: usize)
        requires
            old(self).wf(),
            addr != 0,
            addr != SENTINEL_ADDR,
            size > 0,
            old(self).live().contains_key(addr),
            old(self).live()[addr].align == align,
            old(self).live()[addr].size == size,
        ensures
            final(self).wf(),
            final(self).live() == old(self).live().remove(addr),
    ;

    /// Resizes the live block at `addr` from `old_size` to `new_size`
    /// bytes. On success the old block is gone, the result is a non-null
    /// aligned address (possibly `addr` itself, otherwise fresh) of a block
    /// of the new size whose leading bytes are copied from the old block.
    /// On failure (result zero) nothing changes.
    fn reallocate(&mut self, addr: usize, align: usize, old_size: usize, new_size: usize) -> (r: usize)
        requires
            old(self).wf(),
            addr != 0,
            addr != SENTINEL_ADDR,
            old_size > 0,
            new_size > 0,
            is_pow2(align as int),
            old(self).live().contains_key(addr),
            old(self).live()[addr].align == align,
            old(self).live()[addr].size == old_size,
        ensures
            final(self).wf(),
            r == 0 ==> final(self).live() == old(self).live(),
            r != 0 ==> {
                &&& r != SENTINEL_ADDR
                &&& r % align == 0
                &&& r == addr || !old(self).live().contains_key(r)
                &&& final(self).live().dom() == old(self).live().dom().remove(addr).insert(r)
                &&& forall|k: usize|
                    k != addr && k != r && #[trigger] old(self).live().contains_key(k)
                        ==> final(self).live()[k] == old(self).live()[k]
                &&& final(self).live()[r].align == align
                &&& final(self).live()[r].size == new_size
                &&& final(self).live()[r].bytes.len() == new_size
                &&& forall|i: int|
                    0 <= i < old_size && i < new_size
                        ==> final(self).live()[r].bytes[i] == old(self).live()[addr].bytes[i]
            },
    ;

    /// Reports the capacity of the live block at `addr`: at least the size
    /// it was requested with, since engines round requests up to internal
    /// size classes.
    fn usable_size(&self, addr: usize) -> (r: usize)
        requires
            self.wf(),
            addr != 0,
            addr != SENTINEL_ADDR,
            self.live().contains_key(addr),
        ensures
            r >= self.live()[addr].size,
    ;
}

} // verus!
