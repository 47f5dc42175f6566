//! A bump arena for copyable slices.
//!
//! The arena owns fixed-capacity debris blocks that small allocations share,
//! and a side list of dedicated free blocks for large ones. A request at or
//! above half the debris capacity gets its own free block sized exactly to
//! it; a smaller one lands in the most recently created debris block with
//! enough room, or in a fresh block when none has room. Nothing is moved or
//! freed before the arena itself goes, so every handle stays valid, with its
//! contents unchanged, for the whole life of the arena.

use vstd::prelude::*;
use vstd::slice::slice_subrange;

verus! {

/// A copyable handle to one region the arena has filled.
#[derive(Clone, Copy)]
pub struct SliceRef {
    in_free: bool,
    block: usize,
    start: usize,
    len: usize,
}

impl SliceRef {
    /// Whether the region lives in a dedicated free block.
    pub closed spec fn spec_in_free(&self) -> bool {
        self.in_free
    }

    /// The index of the block the region lives in, within its list.
    pub closed spec fn spec_block_idx(&self) -> int {
        self.block as int
    }

    /// The offset of the region inside its block.
    pub closed spec fn spec_start(&self) -> int {
        self.start as int
    }

    /// The region's length.
    pub closed spec fn spec_len(&self) -> int {
        self.len as int
    }
}

pub struct SliceArena<T: Copy, const DEBRIS_SIZE: usize> {
    debris: Vec<Vec<T>>,
    free_blocks: Vec<Vec<T>>,
}

/// Copies every element of `src` onto the end of `dst`.
fn append_slice<T: Copy>(dst: &mut Vec<T>, src: &[T])
    ensures
        final(dst)@ == old(dst)@ + src@,
{
    let n: usize = src.len();
    let mut k: usize = 0;
    while k < n
        invariant
            n == src@.len(),
            k <= n,
            dst@ == old(dst)@ + src@.subrange(0, k as int),
        decreases n - k,
    {
        dst.push(src[k]);
        proof {
            assert(src@.subrange(0, k as int).push(src@[k as int]) == src@.subrange(
                0,
                k + 1 as int,
            ));
        }
        k = k + 1;
    }
    proof {
        assert(src@.subrange(0, n as int) == src@);
    }
}

impl<T: Copy, const DEBRIS_SIZE: usize> SliceArena<T, DEBRIS_SIZE> {
    /// How many debris blocks the arena holds.
    pub closed spec fn spec_num_debris(&self) -> int {
        self.debris@.len() as int
    }

    /// The contents of the debris block at index `b`.
    pub closed spec fn spec_debris(&self, b: int) -> Seq<T> {
        self.debris@[b]@
    }

    /// How many dedicated free blocks the arena holds.
    pub closed spec fn spec_num_free(&self) -> int {
        self.free_blocks@.len() as int
    }

    /// The contents of the free block at index `b`.
    pub closed spec fn spec_free(&self, b: int) -> Seq<T> {
        self.free_blocks@[b]@
    }

    /// The arena's shape invariant: at least one debris block, none over
    /// capacity.
    pub open spec fn wf(&self) -> bool {
        &&& self.spec_num_debris() >= 1
        &&& forall|b: int|
            0 <= b < self.spec_num_debris() ==> #[trigger] self.spec_debris(b).len()
                <= DEBRIS_SIZE
    }

    /// Whether `r` designates a region the arena has filled.
    pub open spec fn spec_ref_valid(&self, r: SliceRef) -> bool {
        &&& 0 <= r.spec_start()
        &&& 0 <= r.spec_len()
        &&& if r.spec_in_free() {
            &&& 0 <= r.spec_block_idx() < self.spec_num_free()
            &&& r.spec_start() + r.spec_len() <= self.spec_free(r.spec_block_idx()).len()
        } else {
            &&& 0 <= r.spec_block_idx() < self.spec_num_debris()
            &&& r.spec_start() + r.spec_len() <= self.spec_debris(r.spec_block_idx()).len()
        }
    }

    /// The contents of the region `r` designates.
    pub open spec fn spec_ref_contents(&self, r: SliceRef) -> Seq<T> {
        if r.spec_in_free() {
            self.spec_free(r.spec_block_idx()).subrange(
                r.spec_start(),
                r.spec_start() + r.spec_len(),
            )
        } else {
            self.spec_debris(r.spec_block_idx()).subrange(
                r.spec_start(),
                r.spec_start() + r.spec_len(),
            )
        }
    }

    /// The debris block the recency-first search picks for a request of
    /// `need` elements, scanning indices `b` down to `0`: the most recently
    /// created block with enough room, if any block has it.
    pub open spec fn spec_pick_from(&self, b: int, need: int) -> Option<int>
        decreases b + 1,
    {
        if b < 0 {
            None
        } else if self.spec_debris(b).len() + need <= DEBRIS_SIZE {
            Some(b)
        } else {
            self.spec_pick_from(b - 1, need)
        }
    }

    /// The debris block the arena uses for a request of `need` elements.
    pub open spec fn spec_pick(&self, need: int) -> Option<int> {
        self.spec_pick_from(self.spec_num_debris() - 1, need)
    }

    /// What `make` leaves behind: the copy of `src` that `r` designates, the
    /// routing of the request, and every earlier region untouched.
    pub open spec fn spec_make_post(pre: Self, post: Self, src: Seq<T>, r: SliceRef) -> bool {
        &&& post.wf()
        &&& post.spec_ref_valid(r)
        &&& post.spec_ref_contents(r) == src
        &&& r.spec_len() == src.len()
        &&& (r.spec_in_free() <==> src.len() >= DEBRIS_SIZE / 2)
        &&& forall|q: SliceRef| #[trigger]
            pre.spec_ref_valid(q) ==> post.spec_ref_valid(q) && post.spec_ref_contents(q)
                == pre.spec_ref_contents(q)
        &&& if src.len() >= DEBRIS_SIZE / 2 {
            &&& post.spec_num_free() == pre.spec_num_free() + 1
            &&& post.spec_free(pre.spec_num_free()) == src
            &&& (forall|b: int|
                0 <= b < pre.spec_num_free() ==> #[trigger] post.spec_free(b) == pre.spec_free(
                    b,
                ))
            &&& post.spec_num_debris() == pre.spec_num_debris()
            &&& forall|b: int|
                0 <= b < pre.spec_num_debris() ==> #[trigger] post.spec_debris(b)
                    == pre.spec_debris(b)
            &&& r.spec_block_idx() == pre.spec_num_free()
            &&& r.spec_start() == 0
        } else {
            &&& post.spec_num_free() == pre.spec_num_free()
            &&& (forall|b: int|
                0 <= b < pre.spec_num_free() ==> #[trigger] post.spec_free(b) == pre.spec_free(
                    b,
                ))
            &&& (match pre.spec_pick(src.len() as int) {
                Some(b) => {
                    &&& post.spec_num_debris() == pre.spec_num_debris()
                    &&& post.spec_debris(b) == pre.spec_debris(b) + src
                    &&& forall|b2: int|
                        0 <= b2 < pre.spec_num_debris() && b2 != b ==> #[trigger] post.spec_debris(
                            b2,
                        ) == pre.spec_debris(b2)
                    &&& !r.spec_in_free()
                    &&& r.spec_block_idx() == b
                    &&& r.spec_start() == pre.spec_debris(b).len()
                },
                None => {
                    &&& post.spec_num_debris() == pre.spec_num_debris() + 1
                    &&& post.spec_debris(pre.spec_num_debris()) == src
                    &&& forall|b2: int|
                        0 <= b2 < pre.spec_num_debris() ==> #[trigger] post.spec_debris(b2)
                            == pre.spec_debris(b2)
                    &&& !r.spec_in_free()
                    &&& r.spec_block_idx() == pre.spec_num_debris()
                    &&& r.spec_start() == 0
                },
            })
        }
    }

    /// Creates an arena with one empty debris block and no free blocks.
    pub fn new() -> (r: Self)
        ensures
            r.wf(),
            r.spec_num_debris() == 1,
            r.spec_debris(0) == Seq::<T>::empty(),
            r.spec_num_free() == 0,
    {
        let mut debris: Vec<Vec<T>> = Vec::new();
        debris.push(Vec::new());
        SliceArena { debris, free_blocks: Vec::new() }
    }

    /// How many debris blocks the arena has grown so far.
    pub fn debris_count(&self) -> (r: usize)
        ensures
            r == self.spec_num_debris(),
    {
        self.debris.len()
    }

    /// How many dedicated free blocks the arena has set aside so far.
    pub fn free_count(&self) -> (r: usize)
        ensures
            r == self.spec_num_free(),
    {
        self.free_blocks.len()
    }

    /// Copies `slice` into the arena and hands back a handle to the copy.
    ///
    /// A request of at least half the debris capacity gets a dedicated free
    /// block; a smaller one lands in the most recently created debris block
    /// with room, or in a fresh block when none has room. Every handle given
    /// out earlier keeps its contents.
    pub fn make(&mut self, slice: &[T]) -> (r: SliceRef)
        requires
            old(self).wf(),
        ensures
            Self::spec_make_post(*old(self), *final(self), slice@, r),
    {
        let need: usize = slice.len();
        if need >= DEBRIS_SIZE / 2 {
            let mut fb: Vec<T> = Vec::new();
            append_slice(&mut fb, slice);
            let idx: usize = self.free_blocks.len();
            self.free_blocks.push(fb);
            let r = SliceRef { in_free: true, block: idx, start: 0, len: need };
            proof {
                assert(self.spec_free(idx as int) =~= slice@);
                assert(self.spec_ref_contents(r) =~= slice@);
                assert forall|b: int|
                    0 <= b < old(self).spec_num_free() implies #[trigger] self.spec_free(b) == old(
                    self,
                ).spec_free(b) by {
                    assert(self.free_blocks@[b] == old(self).free_blocks@[b]);
                }
                assert forall|q: SliceRef| old(self).spec_ref_valid(q) implies self.spec_ref_valid(
                    q,
                ) && self.spec_ref_contents(q) == old(self).spec_ref_contents(q) by {
                    if q.spec_in_free() {
                        assert(self.free_blocks@[q.spec_block_idx()] == old(
                            self,
                        ).free_blocks@[q.spec_block_idx()]);
                    }
                }
                assert forall|b: int|
                    0 <= b < self.spec_num_debris() implies #[trigger] self.spec_debris(b).len()
                        <= DEBRIS_SIZE by {
                    assert(self.spec_debris(b) == old(self).spec_debris(b));
                    assert(old(self).spec_debris(b).len() <= DEBRIS_SIZE);
                }
            }
            r
        } else {
            let n: usize = self.debris.len();
            let mut i: usize = n;
            while i > 0
                invariant
                    old(self) == self,
                    self.wf(),
                    n == self.spec_num_debris(),
                    i <= n,
                    need == slice@.len(),
                    need < DEBRIS_SIZE / 2,
                    self.spec_pick(need as int) == self.spec_pick_from(i - 1, need as int),
                decreases i,
            {
                let blk_len: usize = self.debris[i - 1].len();
                proof {
                    assert(blk_len == self.spec_debris(i - 1).len());
                }
                if need <= DEBRIS_SIZE - blk_len {
                    let blk: &mut Vec<T> = &mut self.debris[i - 1];
                    append_slice(blk, slice);
                    let r = SliceRef { in_free: false, block: i - 1, start: blk_len, len: need };
                    proof {
                        let b = i - 1 as int;
                        assert(old(self).spec_pick(need as int) == Some(b));
                        assert(self.spec_debris(b) == old(self).spec_debris(b) + slice@);
                        assert(self.spec_ref_contents(r) =~= slice@);
                        assert forall|q: SliceRef| old(self).spec_ref_valid(q) implies self
                            .spec_ref_valid(q) && self.spec_ref_contents(q) == old(
                            self,
                        ).spec_ref_contents(q) by {
                            if !q.spec_in_free() {
                                if q.spec_block_idx() == b {
                                    assert(self.spec_ref_contents(q) =~= old(
                                        self,
                                    ).spec_ref_contents(q));
                                } else {
                                    assert(self.debris@[q.spec_block_idx()] == old(
                                        self,
                                    ).debris@[q.spec_block_idx()]);
                                }
                            }
                        }
                        assert forall|b2: int|
                            0 <= b2 < self.spec_num_debris() implies #[trigger] self.spec_debris(
                            b2,
                        ).len() <= DEBRIS_SIZE by {
                            if b2 != b {
                                assert(self.debris@[b2] == old(self).debris@[b2]);
                                assert(old(self).spec_debris(b2).len() <= DEBRIS_SIZE);
                            } else {
                                assert(old(self).spec_debris(b).len() == blk_len);
                                assert(self.spec_debris(b).len() == blk_len + need);
                            }
                        }
                    }
                    return r;
                }
                i = i - 1;
            }
            let mut fresh: Vec<T> = Vec::new();
            append_slice(&mut fresh, slice);
            self.debris.push(fresh);
            let r = SliceRef { in_free: false, block: n, start: 0, len: need };
            proof {
                assert(old(self).spec_pick(need as int) is None);
                assert(self.spec_debris(n as int) =~= slice@);
                assert(self.spec_ref_contents(r) =~= slice@);
                assert forall|q: SliceRef| old(self).spec_ref_valid(q) implies self.spec_ref_valid(
                    q,
                ) && self.spec_ref_contents(q) == old(self).spec_ref_contents(q) by {
                    if !q.spec_in_free() {
                        assert(self.debris@[q.spec_block_idx()] == old(
                            self,
                        ).debris@[q.spec_block_idx()]);
                    }
                }
                assert forall|b2: int|
                    0 <= b2 < self.spec_num_debris() implies #[trigger] self.spec_debris(
                    b2,
                ).len() <= DEBRIS_SIZE by {
                    if b2 < n {
                        assert(self.debris@[b2] == old(self).debris@[b2]);
                        assert(old(self).spec_debris(b2).len() <= DEBRIS_SIZE);
                    } else {
                        assert(self.spec_debris(b2) =~= slice@);
                    }
                }
            }
            r
        }
    }

    /// Copies the elements an iterator of known exact length produced,
    /// already collected in order; routes and preserves exactly as
    /// [`SliceArena::make`] does.
    pub fn make_from_iter(&mut self, items: &[T], size: usize) -> (r: SliceRef)
        requires
            old(self).wf(),
            size == items@.len(),
        ensures
            Self::spec_make_post(*old(self), *final(self), items@, r),
    {
        self.make(items)
    }

    /// Reads the region a handle designates.
    pub fn get(&self, r: SliceRef) -> (out: &[T])
        requires
            self.spec_ref_valid(r),
        ensures
            out@ == self.spec_ref_contents(r),
    {
        if r.in_free {
            let blk: &Vec<T> = &self.free_blocks[r.block];
            let blk_len: usize = blk.len();
            proof {
                assert(r.spec_start() + r.spec_len() <= blk_len);
            }
            slice_subrange(blk.as_slice(), r.start, r.start + r.len)
        } else {
            let blk: &Vec<T> = &self.debris[r.block];
            let blk_len: usize = blk.len();
            proof {
                assert(r.spec_start() + r.spec_len() <= blk_len);
            }
            slice_subrange(blk.as_slice(), r.start, r.start + r.len)
        }
    }
}

} // verus!
