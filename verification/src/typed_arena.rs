//! A typed arena: a growable bump allocator handing out stable handles.
//!
//! The arena owns an ordered sequence of fixed-capacity debris blocks; the
//! last block is the active one. Allocating never moves or frees what was
//! allocated before, so every handle stays valid, with its value unchanged,
//! for the whole life of the arena.
//!
//! Every arena carries a caller-chosen brand, its origin token, and every
//! handle records the brand of the arena that issued it. A handle may only
//! be presented to an arena bearing its own brand: the accessors with a
//! precondition demand that statically, and [`ArenaPtr::try_get`] compares
//! the brands at run time, answering `None` instead of wrong data. The
//! guarantee is as good as the brands are distinct, which is the caller's
//! choice to make.

use std::marker::PhantomData;
use vstd::prelude::*;

verus! {

/// A copyable handle to one value inside a [`TypedArena`], carrying the
/// brand of the arena that issued it.
///
/// Accessors with a precondition require the handle to be valid for the
/// arena presented, brand included, so a verified caller cannot present a
/// handle to an arena of another brand. [`ArenaPtr::try_get`] makes the
/// comparison at run time instead; a mismatch answers `None`, never a
/// silently wrong value.
pub struct ArenaPtr<T> {
    origin: u64,
    block: usize,
    slot: usize,
    _marker: PhantomData<T>,
}

impl<T> ArenaPtr<T> {
    /// The brand of the arena this handle came from.
    pub closed spec fn spec_origin(&self) -> u64 {
        self.origin
    }

    /// The index of the debris block this handle points into.
    pub closed spec fn spec_block_idx(&self) -> int {
        self.block as int
    }

    /// The slot inside that block.
    pub closed spec fn spec_slot(&self) -> int {
        self.slot as int
    }
}

impl<T> Clone for ArenaPtr<T> {
    fn clone(&self) -> (r: Self)
        ensures
            r == *self,
    {
        ArenaPtr {
            origin: self.origin,
            block: self.block,
            slot: self.slot,
            _marker: PhantomData,
        }
    }
}

impl<T> Copy for ArenaPtr<T> {}

/// A type that can stand as the origin of [`ArenaPtr`] handles: it bears
/// the token that its handles carry and their accessors compare.
pub trait IntoArenaPtr {
    /// The origin token the handles of this value carry.
    spec fn spec_origin_token(&self) -> u64;

    /// Reads the origin token.
    fn origin_token(&self) -> (r: u64)
        ensures
            r == self.spec_origin_token(),
    ;
}

pub struct TypedArena<T, const DEBRIS_SIZE: usize> {
    brand: u64,
    debris: Vec<Vec<T>>,
}

impl<T, const DEBRIS_SIZE: usize> IntoArenaPtr for TypedArena<T, DEBRIS_SIZE> {
    open spec fn spec_origin_token(&self) -> u64 {
        self.spec_brand()
    }

    fn origin_token(&self) -> u64 {
        self.brand
    }
}

impl<T, const DEBRIS_SIZE: usize> TypedArena<T, DEBRIS_SIZE> {
    /// The arena's brand: the origin token its handles carry.
    pub closed spec fn spec_brand(&self) -> u64 {
        self.brand
    }

    /// How many debris blocks the arena holds.
    pub closed spec fn spec_num_blocks(&self) -> int {
        self.debris@.len() as int
    }

    /// The contents of the debris block at index `b`.
    pub closed spec fn spec_block(&self, b: int) -> Seq<T> {
        self.debris@[b]@
    }

    /// The arena's shape invariant: at least one block; no block over
    /// capacity; every block but the last filled to capacity.
    pub open spec fn wf(&self) -> bool {
        &&& DEBRIS_SIZE >= 1
        &&& self.spec_num_blocks() >= 1
        &&& forall|b: int|
            0 <= b < self.spec_num_blocks() ==> #[trigger] self.spec_block(b).len() <= DEBRIS_SIZE
        &&& forall|b: int|
            0 <= b < self.spec_num_blocks() - 1 ==> #[trigger] self.spec_block(b).len()
                == DEBRIS_SIZE
    }

    /// Whether `p` was issued by this arena (it bears the arena's brand)
    /// and designates a slot the arena has already filled.
    pub open spec fn spec_valid(&self, p: ArenaPtr<T>) -> bool {
        &&& p.spec_origin() == self.spec_brand()
        &&& 0 <= p.spec_block_idx() < self.spec_num_blocks()
        &&& 0 <= p.spec_slot() < self.spec_block(p.spec_block_idx()).len()
    }

    /// The value `p` designates.
    pub open spec fn spec_at(&self, p: ArenaPtr<T>) -> T {
        self.spec_block(p.spec_block_idx())[p.spec_slot()]
    }

    /// Creates an arena with one empty debris block, bearing `brand` as its
    /// origin token. Give each arena its own brand: handles tell their
    /// arenas apart only as far as the brands differ.
    pub fn new(brand: u64) -> (r: Self)
        requires
            DEBRIS_SIZE >= 1,
        ensures
            r.wf(),
            r.spec_brand() == brand,
            r.spec_num_blocks() == 1,
            r.spec_block(0) == Seq::<T>::empty(),
    {
        let mut debris: Vec<Vec<T>> = Vec::new();
        debris.push(Vec::new());
        TypedArena { brand, debris }
    }

    /// How many debris blocks the arena has grown so far.
    pub fn debris_count(&self) -> (r: usize)
        ensures
            r == self.spec_num_blocks(),
    {
        self.debris.len()
    }

    /// Moves `data` into the active block, growing the arena by a fresh
    /// block first if the active one is full. Every handle given out
    /// earlier stays valid and keeps its value.
    pub fn make(&mut self, data: T) -> (r: ArenaPtr<T>)
        requires
            old(self).wf(),
        ensures
            final(self).wf(),
            final(self).spec_brand() == old(self).spec_brand(),
            final(self).spec_valid(r),
            final(self).spec_at(r) == data,
            forall|p: ArenaPtr<T>| #[trigger]
                old(self).spec_valid(p) ==> final(self).spec_valid(p) && final(self).spec_at(p)
                    == old(self).spec_at(p),
            old(self).spec_block(old(self).spec_num_blocks() - 1).len() < DEBRIS_SIZE ==> {
                &&& final(self).spec_num_blocks() == old(self).spec_num_blocks()
                &&& r.spec_block_idx() == old(self).spec_num_blocks() - 1
                &&& r.spec_slot() == old(self).spec_block(r.spec_block_idx()).len()
                &&& final(self).spec_block(r.spec_block_idx()) == old(self).spec_block(
                    r.spec_block_idx(),
                ).push(data)
                &&& forall|b: int|
                    0 <= b < old(self).spec_num_blocks() && b != r.spec_block_idx()
                        ==> #[trigger] final(self).spec_block(b) == old(self).spec_block(b)
            },
            old(self).spec_block(old(self).spec_num_blocks() - 1).len() == DEBRIS_SIZE ==> {
                &&& final(self).spec_num_blocks() == old(self).spec_num_blocks() + 1
                &&& r.spec_block_idx() == old(self).spec_num_blocks()
                &&& r.spec_slot() == 0
                &&& final(self).spec_block(r.spec_block_idx()) == seq![data]
                &&& forall|b: int|
                    0 <= b < old(self).spec_num_blocks() ==> #[trigger] final(self).spec_block(b)
                        == old(self).spec_block(b)
            },
    {
        let n: usize = self.debris.len();
        let last_len: usize = self.debris[n - 1].len();
        if last_len < DEBRIS_SIZE {
            let blk: &mut Vec<T> = &mut self.debris[n - 1];
            blk.push(data);
            let r = ArenaPtr {
                origin: self.brand,
                block: n - 1,
                slot: last_len,
                _marker: PhantomData,
            };
            proof {
                let li = n - 1 as int;
                assert(self.debris@.len() == old(self).debris@.len());
                assert(self.debris@[li]@ == old(self).debris@[li]@.push(data));
                assert forall|b: int|
                    0 <= b < old(self).spec_num_blocks() && b != li implies #[trigger] self
                    .spec_block(b) == old(self).spec_block(b) by {
                    assert(self.debris@[b] == old(self).debris@[b]);
                }
                assert forall|b: int| 0 <= b < self.spec_num_blocks() implies #[trigger] self
                    .spec_block(b).len() <= DEBRIS_SIZE by {
                    if b != li {
                        assert(self.debris@[b] == old(self).debris@[b]);
                        assert(old(self).spec_block(b).len() <= DEBRIS_SIZE);
                    }
                }
                assert forall|b: int| 0 <= b < self.spec_num_blocks() - 1 implies #[trigger] self
                    .spec_block(b).len() == DEBRIS_SIZE by {
                    assert(self.debris@[b] == old(self).debris@[b]);
                    assert(old(self).spec_block(b).len() == DEBRIS_SIZE);
                }
                assert forall|p: ArenaPtr<T>| old(self).spec_valid(p) implies self.spec_valid(p)
                    && self.spec_at(p) == old(self).spec_at(p) by {
                    if p.block as int != li {
                        assert(self.debris@[p.block as int] == old(self).debris@[p.block as int]);
                    }
                }
            }
            r
        } else {
            let mut fresh: Vec<T> = Vec::new();
            fresh.push(data);
            self.debris.push(fresh);
            let r = ArenaPtr { origin: self.brand, block: n, slot: 0, _marker: PhantomData };
            proof {
                assert(self.debris@ == old(self).debris@.push(fresh));
                assert(self.debris@[n as int]@ =~= seq![data]);
                assert forall|b: int| 0 <= b < old(self).spec_num_blocks() implies #[trigger] self
                    .spec_block(b) == old(self).spec_block(b) by {
                    assert(self.debris@[b] == old(self).debris@[b]);
                }
                assert forall|b: int| 0 <= b < self.spec_num_blocks() implies #[trigger] self
                    .spec_block(b).len() <= DEBRIS_SIZE by {
                    if b < n {
                        assert(self.debris@[b] == old(self).debris@[b]);
                        assert(old(self).spec_block(b).len() <= DEBRIS_SIZE);
                    }
                }
                assert forall|b: int| 0 <= b < self.spec_num_blocks() - 1 implies #[trigger] self
                    .spec_block(b).len() == DEBRIS_SIZE by {
                    assert(self.debris@[b] == old(self).debris@[b]);
                    if b < n - 1 {
                        assert(old(self).spec_block(b).len() == DEBRIS_SIZE);
                    } else {
                        assert(old(self).spec_block(b).len() == last_len);
                    }
                }
                assert forall|p: ArenaPtr<T>| old(self).spec_valid(p) implies self.spec_valid(p)
                    && self.spec_at(p) == old(self).spec_at(p) by {
                    assert(self.debris@[p.block as int] == old(self).debris@[p.block as int]);
                }
            }
            r
        }
    }
}

impl<T> ArenaPtr<T> {
    /// Reads the value this handle designates in its originating arena.
    pub fn get<'a, const DEBRIS_SIZE: usize>(
        &self,
        arena: &'a TypedArena<T, DEBRIS_SIZE>,
    ) -> (r: &'a T)
        requires
            arena.spec_valid(*self),
        ensures
            *r == arena.spec_at(*self),
    {
        &arena.debris[self.block][self.slot]
    }

    /// Reads the value this handle designates, checking the handle against
    /// the arena at run time: an arena of another brand, or a slot the
    /// arena never filled, answers `None` — never a silently wrong value.
    pub fn try_get<'a, const DEBRIS_SIZE: usize>(
        &self,
        arena: &'a TypedArena<T, DEBRIS_SIZE>,
    ) -> (r: Option<&'a T>)
        ensures
            arena.spec_valid(*self) ==> (r matches Some(v) && *v == arena.spec_at(*self)),
            !arena.spec_valid(*self) ==> r is None,
    {
        if self.origin != arena.brand {
            return None;
        }
        if self.block >= arena.debris.len() {
            return None;
        }
        if self.slot >= arena.debris[self.block].len() {
            return None;
        }
        Some(&arena.debris[self.block][self.slot])
    }

    /// Borrows the designated value exclusively, checking the handle
    /// against the arena at run time: an arena of another brand, or a slot
    /// the arena never filled, answers `None` and leaves the arena
    /// untouched.
    pub fn try_get_mut<'a, const DEBRIS_SIZE: usize>(
        &self,
        arena: &'a mut TypedArena<T, DEBRIS_SIZE>,
    ) -> (r: Option<&'a mut T>)
        ensures
            r is None ==> !old(arena).spec_valid(*self) && *final(arena) == *old(arena),
            r matches Some(v) ==> {
                &&& old(arena).spec_valid(*self)
                &&& *v == old(arena).spec_at(*self)
                &&& final(arena).spec_brand() == old(arena).spec_brand()
                &&& final(arena).spec_num_blocks() == old(arena).spec_num_blocks()
                &&& final(arena).spec_block(self.spec_block_idx()) == old(arena).spec_block(
                    self.spec_block_idx(),
                ).update(self.spec_slot(), *final(v))
                &&& forall|b: int|
                    0 <= b < old(arena).spec_num_blocks() && b != self.spec_block_idx()
                        ==> #[trigger] final(arena).spec_block(b) == old(arena).spec_block(b)
            },
    {
        if self.try_get(arena).is_none() {
            return None;
        }
        Some(self.get_mut(arena))
    }

    /// Borrows the designated value exclusively; nothing else in the arena
    /// changes.
    pub fn get_mut<'a, const DEBRIS_SIZE: usize>(
        &self,
        arena: &'a mut TypedArena<T, DEBRIS_SIZE>,
    ) -> (r: &'a mut T)
        requires
            old(arena).spec_valid(*self),
        ensures
            *r == old(arena).spec_at(*self),
            final(arena).spec_brand() == old(arena).spec_brand(),
            final(arena).spec_num_blocks() == old(arena).spec_num_blocks(),
            final(arena).spec_block(self.spec_block_idx()) == old(arena).spec_block(
                self.spec_block_idx(),
            ).update(self.spec_slot(), *final(r)),
            forall|b: int|
                0 <= b < old(arena).spec_num_blocks() && b != self.spec_block_idx()
                    ==> #[trigger] final(arena).spec_block(b) == old(arena).spec_block(b),
    {
        &mut arena.debris[self.block][self.slot]
    }

    /// The trusted-caller variant of [`ArenaPtr::get`]: it makes no run-time
    /// comparison. Its precondition carries the same origin requirement, so
    /// for a verified caller it coincides with the checked accessors.
    pub fn get_unchecked<'a, const DEBRIS_SIZE: usize>(
        &self,
        arena: &'a TypedArena<T, DEBRIS_SIZE>,
    ) -> (r: &'a T)
        requires
            arena.spec_valid(*self),
        ensures
            *r == arena.spec_at(*self),
    {
        self.get(arena)
    }

    /// The trusted-caller variant of [`ArenaPtr::get_mut`].
    pub fn get_unchecked_mut<'a, const DEBRIS_SIZE: usize>(
        &self,
        arena: &'a mut TypedArena<T, DEBRIS_SIZE>,
    ) -> (r: &'a mut T)
        requires
            old(arena).spec_valid(*self),
        ensures
            *r == old(arena).spec_at(*self),
            final(arena).spec_brand() == old(arena).spec_brand(),
            final(arena).spec_num_blocks() == old(arena).spec_num_blocks(),
            final(arena).spec_block(self.spec_block_idx()) == old(arena).spec_block(
                self.spec_block_idx(),
            ).update(self.spec_slot(), *final(r)),
            forall|b: int|
                0 <= b < old(arena).spec_num_blocks() && b != self.spec_block_idx()
                    ==> #[trigger] final(arena).spec_block(b) == old(arena).spec_block(b),
    {
        self.get_mut(arena)
    }

    /// A safe-feeling spelling of [`ArenaPtr::get_unchecked`].
    pub fn get_tricky<'a, const DEBRIS_SIZE: usize>(
        &self,
        arena: &'a TypedArena<T, DEBRIS_SIZE>,
    ) -> (r: &'a T)
        requires
            arena.spec_valid(*self),
        ensures
            *r == arena.spec_at(*self),
    {
        self.get_unchecked(arena)
    }

    /// A safe-feeling spelling of [`ArenaPtr::get_unchecked_mut`].
    pub fn get_tricky_mut<'a, const DEBRIS_SIZE: usize>(
        &self,
        arena: &'a mut TypedArena<T, DEBRIS_SIZE>,
    ) -> (r: &'a mut T)
        requires
            old(arena).spec_valid(*self),
        ensures
            *r == old(arena).spec_at(*self),
            final(arena).spec_brand() == old(arena).spec_brand(),
            final(arena).spec_num_blocks() == old(arena).spec_num_blocks(),
            final(arena).spec_block(self.spec_block_idx()) == old(arena).spec_block(
                self.spec_block_idx(),
            ).update(self.spec_slot(), *final(r)),
            forall|b: int|
                0 <= b < old(arena).spec_num_blocks() && b != self.spec_block_idx()
                    ==> #[trigger] final(arena).spec_block(b) == old(arena).spec_block(b),
    {
        self.get_unchecked_mut(arena)
    }
}

/// Writing one already-filled slot preserves the arena's shape invariant
/// and every handle's validity: this is what a caller of
/// [`ArenaPtr::get_mut`] knows about the arena once the borrow it took ends.
pub proof fn lemma_arena_update_wf<T, const DEBRIS_SIZE: usize>(
    pre: TypedArena<T, DEBRIS_SIZE>,
    post: TypedArena<T, DEBRIS_SIZE>,
    p: ArenaPtr<T>,
    v: T,
)
    requires
        pre.wf(),
        pre.spec_valid(p),
        post.spec_brand() == pre.spec_brand(),
        post.spec_num_blocks() == pre.spec_num_blocks(),
        post.spec_block(p.spec_block_idx()) == pre.spec_block(p.spec_block_idx()).update(
            p.spec_slot(),
            v,
        ),
        forall|b: int|
            0 <= b < pre.spec_num_blocks() && b != p.spec_block_idx() ==> #[trigger] post
                .spec_block(b) == pre.spec_block(b),
    ensures
        post.wf(),
        post.spec_valid(p),
        post.spec_at(p) == v,
        forall|q: ArenaPtr<T>| #[trigger]
            pre.spec_valid(q) ==> post.spec_valid(q) && (q.spec_block_idx() != p.spec_block_idx()
                || q.spec_slot() != p.spec_slot() ==> post.spec_at(q) == pre.spec_at(q)),
{
    assert forall|b: int| 0 <= b < post.spec_num_blocks() implies #[trigger] post.spec_block(
        b,
    ).len() <= DEBRIS_SIZE by {
        if b != p.spec_block_idx() {
            assert(post.spec_block(b) == pre.spec_block(b));
        }
    }
    assert forall|b: int| 0 <= b < post.spec_num_blocks() - 1 implies #[trigger] post.spec_block(
        b,
    ).len() == DEBRIS_SIZE by {
        if b != p.spec_block_idx() {
            assert(post.spec_block(b) == pre.spec_block(b));
        }
    }
}

} // verus!
