//! A verified in-crate allocation engine: a bump-pointer store of live
//! blocks that implements the [`Backend`] capability. It exists so the
//! facade's behavior can be exercised end to end against an engine whose
//! contracts are proved rather than assumed.

use std::collections::HashMap;
use vstd::prelude::*;

verus! {

use vstd::arithmetic::div_mod::{lemma_fundamental_div_mod, lemma_mod_multiples_basic};
use vstd::arithmetic::power2::is_pow2;
use vstd::pervasive::unreached;
use crate::backend::{engine_inv, Backend, BlockView, SENTINEL_ADDR};
use crate::layout::lemma_pow2_positive;

broadcast use vstd::std_specs::hash::group_hash_axioms;

/// The lowest address the model engine hands out. It lies above the
/// sentinel address, so a model allocation can never collide with the
/// sentinel.
pub const BASE_ADDR: usize = 65536;

/// The byte pattern the model engine writes into storage whose contents
/// the contracts leave unspecified: freshly allocated blocks and the grown
/// tail of a resized block.
pub const FILL_BYTE: u8 = 165;

/// One allocation as the model engine stores it: the alignment and size it
/// was requested with, and its bytes.
pub struct ModelBlock {
    pub align: usize,
    pub size: usize,
    pub data: Vec<u8>,
}

impl View for ModelBlock {
    type V = BlockView;

    open spec fn view(&self) -> BlockView {
        BlockView { align: self.align, size: self.size, bytes: self.data@ }
    }
}

/// A bump-pointer engine: `blocks` maps each live address to its block,
/// and `next` is the lowest address not yet handed out. Addresses are
/// never reused, which keeps every allocation trivially fresh.
pub struct ModelBackend {
    pub blocks: HashMap<usize, ModelBlock>,
    pub next: usize,
}

/// Rounds `x` up to the next multiple of `align`, or `None` when no such
/// multiple fits in `usize`.
fn align_up(x: usize, align: usize) -> (r: Option<usize>)
    requires
        align >= 1,
    ensures
        r matches Some(a) ==> x <= a && a % align == 0,
{
    let rem = x % align;
    if rem == 0 {
        Some(x)
    } else {
        match x.checked_add(align - rem) {
            Some(a) => {
                proof {
                    let q = x as int / align as int;
                    lemma_fundamental_div_mod(x as int, align as int);
                    assert(a as int == (q + 1) * align as int) by (nonlinear_arith)
                        requires
                            x as int == align as int * q + rem as int,
                            a as int == x as int + align as int - rem as int,
                    ;
                    lemma_mod_multiples_basic(q + 1, align as int);
                }
                Some(a)
            },
            None => None,
        }
    }
}

/// Builds a vector of `len` copies of `value`.
fn filled_vec(len: usize, value: u8) -> (v: Vec<u8>)
    ensures
        v@.len() == len,
        forall|i: int| 0 <= i < len ==> v@[i] == value,
{
    let mut v: Vec<u8> = Vec::new();
    while v.len() < len
        invariant
            v@.len() <= len,
            forall|i: int| 0 <= i < v@.len() ==> v@[i] == value,
        decreases len - v@.len(),
    {
        v.push(value);
    }
    v
}

impl ModelBackend {
    /// A fresh engine with no live allocations.
    pub fn new() -> (b: ModelBackend)
        ensures
            engine_inv(b),
            b.live() == Map::<usize, BlockView>::empty(),
    {
        let b = ModelBackend { blocks: HashMap::new(), next: BASE_ADDR };
        proof {
            assert(b.live() =~= Map::<usize, BlockView>::empty());
        }
        b
    }

    /// The number of live allocations the engine is tracking.
    pub fn block_count(&self) -> (n: usize)
        ensures
            n == self.live().dom().len(),
    {
        proof {
            assert(self.live().dom() =~= self.blocks@.dom());
        }
        self.blocks.len()
    }

    /// Reads one byte of a live block.
    pub fn read_byte(&self, addr: usize, i: usize) -> (v: u8)
        requires
            self.wf(),
            self.live().contains_key(addr),
            i < self.live()[addr].bytes.len(),
        ensures
            v == self.live()[addr].bytes[i as int],
    {
        match self.blocks.get(&addr) {
            Some(blk) => blk.data[i],
            None => unreached(),
        }
    }

    /// Creates a fresh block of `size` bytes of `fill` at the next aligned
    /// address, or reports exhaustion with a zero address.
    fn fresh_block(&mut self, align: usize, size: usize, fill: u8) -> (r: usize)
        requires
            old(self).wf(),
            is_pow2(align as int),
            size > 0,
        ensures
            final(self).wf(),
            r == 0 ==> final(self).live() == old(self).live(),
            r != 0 ==> {
                &&& r != SENTINEL_ADDR
                &&& r % align == 0
                &&& !old(self).live().contains_key(r)
                &&& final(self).live().dom() == old(self).live().dom().insert(r)
                &&& forall|k: usize|
                    k != r && #[trigger] old(self).live().contains_key(k)
                        ==> final(self).live()[k] == old(self).live()[k]
                &&& final(self).live()[r].align == align
                &&& final(self).live()[r].size == size
                &&& final(self).live()[r].bytes.len() == size
                &&& forall|i: int| 0 <= i < size ==> final(self).live()[r].bytes[i] == fill
            },
    {
        proof {
            lemma_pow2_positive(align as int);
        }
        let a = match align_up(self.next, align) {
            Some(a) => a,
            None => {
                return 0;
            },
        };
        let end = match a.checked_add(size) {
            Some(e) => e,
            None => {
                return 0;
            },
        };
        let data = filled_vec(size, fill);
        self.blocks.insert(a, ModelBlock { align, size, data });
        self.next = end;
        proof {
            assert(!old(self).blocks@.contains_key(a));
            assert(self.live().dom() =~= old(self).live().dom().insert(a));
        }
        a
    }
}

impl Backend for ModelBackend {
    open spec fn live(&self) -> Map<usize, BlockView> {
        self.blocks@.map_values(|blk: ModelBlock| blk@)
    }

    open spec fn wf(&self) -> bool {
        &&& self.next >= BASE_ADDR
        &&& forall|k: usize| #[trigger] self.blocks@.contains_key(k) ==> {
            &&& k >= BASE_ADDR
            &&& k < self.next
            &&& self.blocks@[k].size > 0
            &&& self.blocks@[k].data@.len() == self.blocks@[k].size
        }
    }

    fn allocate(&mut self, align: usize, size: usize) -> (r: usize) {
        self.fresh_block(align, size, FILL_BYTE)
    }

    fn allocate_zeroed(&mut self, align: usize, size: usize) -> (r: usize) {
        self.fresh_block(align, size, 0)
    }

    fn deallocate(&mut self, addr: usize, align: usize, size: usize) {
        self.blocks.remove(&addr);
        proof {
            assert(self.live() =~= old(self).live().remove(addr));
        }
    }

    fn reallocate(&mut self, addr: usize, align: usize, old_size: usize, new_size: usize) -> (r:
        usize) {
        proof {
            lemma_pow2_positive(align as int);
        }
        let a = match align_up(self.next, align) {
            Some(a) => a,
            None => {
                return 0;
            },
        };
        let end = match a.checked_add(new_size) {
            Some(e) => e,
            None => {
                return 0;
            },
        };
        let old_blk = match self.blocks.remove(&addr) {
            Some(blk) => blk,
            None => unreached(),
        };
        let copy_len = if old_size < new_size {
            old_size
        } else {
            new_size
        };
        let mut data: Vec<u8> = Vec::new();
        let mut i: usize = 0;
        while i < copy_len
            invariant
                i <= copy_len,
                copy_len <= old_blk.data@.len(),
                data@.len() == i,
                forall|j: int| 0 <= j < i ==> data@[j] == old_blk.data@[j],
            decreases copy_len - i,
        {
            let byte = old_blk.data[i];
            data.push(byte);
            i += 1;
        }
        while data.len() < new_size
            invariant
                copy_len <= new_size,
                data@.len() >= copy_len,
                data@.len() <= new_size,
                forall|j: int| 0 <= j < copy_len ==> data@[j] == old_blk.data@[j],
            decreases new_size - data@.len(),
        {
            data.push(FILL_BYTE);
        }
        self.blocks.insert(a, ModelBlock { align, size: new_size, data });
        self.next = end;
        proof {
            assert(!old(self).blocks@.contains_key(a));
            assert(self.live().dom() =~= old(self).live().dom().remove(addr).insert(a));
        }
        a
    }

    fn usable_size(&self, addr: usize) -> (r: usize) {
        match self.blocks.get(&addr) {
            Some(blk) => blk.size,
            None => unreached(),
        }
    }
}

} // verus!
