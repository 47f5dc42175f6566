//! A vector that lets you soundly read stale data.
//!
//! Unlike an ordinary vector, [`ZeroVec`] never re-initialises slots it has
//! used before: shrinking and re-growing within capacity exposes the old
//! values again, and slots never written hold the element type's all-zero
//! value. Reads are therefore meaningful anywhere inside the backing
//! storage, not only below the current length.

use vstd::prelude::*;
use vstd::slice::slice_subrange;

verus! {

/// Types whose all-zero bit pattern is a valid, known value, and which may
/// not care about stale values. Meant for plain copyable data:
/// [`ZeroVec`] demands `Copy` alongside it.
pub trait TrivialInit: Sized {
    /// The all-zero value of the type.
    spec fn spec_trivial() -> Self;

    /// Produces the all-zero value.
    fn trivial() -> (r: Self)
        ensures
            r == Self::spec_trivial(),
    ;
}

impl TrivialInit for i8 {
    open spec fn spec_trivial() -> Self {
        0
    }

    fn trivial() -> Self {
        0
    }
}

impl TrivialInit for i16 {
    open spec fn spec_trivial() -> Self {
        0
    }

    fn trivial() -> Self {
        0
    }
}

impl TrivialInit for i32 {
    open spec fn spec_trivial() -> Self {
        0
    }

    fn trivial() -> Self {
        0
    }
}

impl TrivialInit for i64 {
    open spec fn spec_trivial() -> Self {
        0
    }

    fn trivial() -> Self {
        0
    }
}

impl TrivialInit for u8 {
    open spec fn spec_trivial() -> Self {
        0
    }

    fn trivial() -> Self {
        0
    }
}

impl TrivialInit for u16 {
    open spec fn spec_trivial() -> Self {
        0
    }

    fn trivial() -> Self {
        0
    }
}

impl TrivialInit for u32 {
    open spec fn spec_trivial() -> Self {
        0
    }

    fn trivial() -> Self {
        0
    }
}

impl TrivialInit for u64 {
    open spec fn spec_trivial() -> Self {
        0
    }

    fn trivial() -> Self {
        0
    }
}

impl<T1: TrivialInit, T2: TrivialInit> TrivialInit for (T1, T2) {
    open spec fn spec_trivial() -> Self {
        (T1::spec_trivial(), T2::spec_trivial())
    }

    fn trivial() -> Self {
        (T1::trivial(), T2::trivial())
    }
}

impl<T1: TrivialInit, T2: TrivialInit, T3: TrivialInit> TrivialInit for (T1, T2, T3) {
    open spec fn spec_trivial() -> Self {
        (T1::spec_trivial(), T2::spec_trivial(), T3::spec_trivial())
    }

    fn trivial() -> Self {
        (T1::trivial(), T2::trivial(), T3::trivial())
    }
}

/// A vector whose backing storage is zero-initialised once and never
/// re-initialised afterwards.
pub struct ZeroVec<T: TrivialInit + Copy> {
    data: Vec<T>,
    len: usize,
}

/// Grows `data` with all-zero elements until it holds `target` of them.
fn fill_zero<T: TrivialInit + Copy>(data: &mut Vec<T>, target: usize)
    requires
        old(data)@.len() <= target,
    ensures
        final(data)@.len() == target,
        forall|i: int| 0 <= i < old(data)@.len() ==> final(data)@[i] == old(data)@[i],
        forall|i: int|
            old(data)@.len() <= i < target ==> final(data)@[i] == T::spec_trivial(),
{
    let ghost orig = old(data)@;
    while data.len() < target
        invariant
            orig.len() <= data@.len() <= target,
            forall|i: int| 0 <= i < orig.len() ==> data@[i] == orig[i],
            forall|i: int| orig.len() <= i < data@.len() ==> data@[i] == T::spec_trivial(),
        decreases target - data@.len(),
    {
        data.push(T::trivial());
    }
}

impl<T: TrivialInit + Copy> ZeroVec<T> {
    /// The number of elements the vector currently claims to hold.
    pub closed spec fn spec_len(&self) -> int {
        self.len as int
    }

    /// The number of slots the backing storage holds.
    pub closed spec fn spec_capacity(&self) -> int {
        self.data@.len() as int
    }

    /// Every slot of the backing storage, claimed or not.
    pub closed spec fn spec_data(&self) -> Seq<T> {
        self.data@
    }

    /// The vector's shape invariant: the claimed length fits the storage.
    pub open spec fn wf(&self) -> bool {
        &&& self.spec_len() <= self.spec_capacity()
        &&& self.spec_capacity() >= 1
    }

    /// Creates an empty vector backed by sixteen zeroed slots.
    pub fn new() -> (r: Self)
        ensures
            r.wf(),
            r.spec_len() == 0,
            r.spec_capacity() == 16,
            forall|i: int| 0 <= i < 16 ==> r.spec_data()[i] == T::spec_trivial(),
    {
        let mut data: Vec<T> = Vec::new();
        fill_zero(&mut data, 16);
        ZeroVec { data, len: 0 }
    }

    /// Creates an empty vector backed by `cap` zeroed slots.
    pub fn with_capacity(cap: usize) -> (r: Self)
        requires
            cap >= 1,
        ensures
            r.wf(),
            r.spec_len() == 0,
            r.spec_capacity() == cap,
            forall|i: int| 0 <= i < cap ==> r.spec_data()[i] == T::spec_trivial(),
    {
        let mut data: Vec<T> = Vec::new();
        fill_zero(&mut data, cap);
        ZeroVec { data, len: 0 }
    }

    /// Sets the claimed length, growing the backing storage only when the
    /// new length exceeds it. Slots that already exist keep their old
    /// values — this vector never re-initialises — and freshly grown slots
    /// are zero.
    pub fn resize(&mut self, new_len: usize)
        requires
            old(self).wf(),
            new_len > old(self).spec_capacity() ==> old(self).spec_capacity() <= usize::MAX / 2,
        ensures
            final(self).wf(),
            final(self).spec_len() == new_len,
            final(self).spec_capacity() >= old(self).spec_capacity(),
            forall|i: int|
                0 <= i < old(self).spec_capacity() ==> final(self).spec_data()[i] == old(
                    self,
                ).spec_data()[i],
            forall|i: int|
                old(self).spec_capacity() <= i < final(self).spec_capacity()
                    ==> final(self).spec_data()[i] == T::spec_trivial(),
            new_len <= old(self).spec_capacity() ==> final(self).spec_capacity() == old(
                self,
            ).spec_capacity(),
            new_len > old(self).spec_capacity() ==> final(self).spec_capacity() == (if 2 * old(
                self,
            ).spec_capacity() > new_len {
                2 * old(self).spec_capacity()
            } else {
                new_len as int
            }),
    {
        if new_len > self.len && new_len > self.data.len() {
            let doubled: usize = self.data.len() * 2;
            let target: usize = if doubled > new_len {
                doubled
            } else {
                new_len
            };
            fill_zero(&mut self.data, target);
        }
        self.len = new_len;
    }

    /// The number of elements the vector currently claims to hold.
    pub fn len(&self) -> (r: usize)
        ensures
            r == self.spec_len(),
    {
        self.len
    }

    /// Reads the element at `idx`, which must lie below the claimed length.
    pub fn index(&self, idx: usize) -> (r: &T)
        requires
            self.wf(),
            idx < self.spec_len(),
        ensures
            *r == self.spec_data()[idx as int],
    {
        &self.data[idx]
    }

    /// Writes through to the element at `idx`, below the claimed length.
    pub fn index_mut(&mut self, idx: usize) -> (r: &mut T)
        requires
            old(self).wf(),
            idx < old(self).spec_len(),
        ensures
            *r == old(self).spec_data()[idx as int],
            final(self).spec_data() == old(self).spec_data().update(idx as int, *final(r)),
            final(self).spec_len() == old(self).spec_len(),
            final(self).spec_capacity() == old(self).spec_capacity(),
    {
        &mut self.data[idx]
    }

    /// Reads any slot of the backing storage, claimed or not: beyond the
    /// claimed length the value is stale or zero, and reading it is sound.
    pub fn get_unchecked(&self, idx: usize) -> (r: &T)
        requires
            idx < self.spec_capacity(),
        ensures
            *r == self.spec_data()[idx as int],
    {
        &self.data[idx]
    }

    /// Writes through to any slot of the backing storage, claimed or not.
    pub fn get_unchecked_mut(&mut self, idx: usize) -> (r: &mut T)
        requires
            idx < old(self).spec_capacity(),
        ensures
            *r == old(self).spec_data()[idx as int],
            final(self).spec_data() == old(self).spec_data().update(idx as int, *final(r)),
            final(self).spec_len() == old(self).spec_len(),
            final(self).spec_capacity() == old(self).spec_capacity(),
    {
        &mut self.data[idx]
    }

    /// The claimed elements, as a slice.
    pub fn as_slice(&self) -> (r: &[T])
        requires
            self.wf(),
        ensures
            r@ == self.spec_data().subrange(0, self.spec_len()),
    {
        slice_subrange(self.data.as_slice(), 0, self.len)
    }
}

} // verus!
