//! A flexible array: one fixed header value together with a variable-length
//! trailing array of copyable elements, fixed in length at construction.

use vstd::prelude::*;
use vstd::slice::slice_to_vec;

verus! {

pub struct FlexArray<NF, T: Copy> {
    fixed: NF,
    elems: Vec<T>,
}

/// A shared view of both parts of a [`FlexArray`].
#[derive(Clone)]
pub struct FLARef<'a, NF, T: Copy> {
    pub fixed: &'a NF,
    pub flex: &'a [T],
}

/// An exclusive view of both parts of a [`FlexArray`].
pub struct FLARefMut<'a, NF, T: Copy> {
    pub fixed: &'a mut NF,
    pub flex: &'a mut [T],
}

impl<NF, T: Copy> FlexArray<NF, T> {
    /// The header value.
    pub closed spec fn spec_fixed(&self) -> NF {
        self.fixed
    }

    /// The trailing array's contents.
    pub closed spec fn spec_flex(&self) -> Seq<T> {
        self.elems@
    }

    /// Builds a flexible array whose trailing array is empty.
    pub fn new_empty(fixed: NF) -> (r: Self)
        ensures
            r.spec_fixed() == fixed,
            r.spec_flex() == Seq::<T>::empty(),
    {
        Self { fixed, elems: Vec::new() }
    }

    /// Builds a flexible array holding `fixed` and a copy of `slice`.
    pub fn new(fixed: NF, slice: &[T]) -> (r: Self)
        ensures
            r.spec_fixed() == fixed,
            r.spec_flex() == slice@,
    {
        Self { fixed, elems: slice_to_vec(slice) }
    }

    /// Builds a flexible array holding `fixed` and the elements an iterator
    /// produced, already collected in order.
    pub fn new_with_iter(fixed: NF, items: Vec<T>) -> (r: Self)
        ensures
            r.spec_fixed() == fixed,
            r.spec_flex() == items@,
    {
        Self { fixed, elems: items }
    }

    /// Borrows the header.
    pub fn fixed(&self) -> (r: &NF)
        ensures
            *r == self.spec_fixed(),
    {
        &self.fixed
    }

    /// Borrows the header exclusively; the trailing array is untouched.
    pub fn fixed_mut(&mut self) -> (r: &mut NF)
        ensures
            *r == old(self).spec_fixed(),
            final(self).spec_fixed() == *final(r),
            final(self).spec_flex() == old(self).spec_flex(),
    {
        &mut self.fixed
    }

    /// Borrows the trailing array.
    pub fn flex(&self) -> (r: &[T])
        ensures
            r@ == self.spec_flex(),
    {
        self.elems.as_slice()
    }

    /// Borrows the trailing array exclusively; the header is untouched.
    pub fn flex_mut(&mut self) -> (r: &mut [T])
        ensures
            r@ == old(self).spec_flex(),
            final(self).spec_flex() == final(r)@,
            final(self).spec_fixed() == old(self).spec_fixed(),
    {
        self.elems.as_mut_slice()
    }

    /// Borrows both parts at once.
    pub fn as_ref(&self) -> (r: FLARef<'_, NF, T>)
        ensures
            *r.fixed == self.spec_fixed(),
            r.flex@ == self.spec_flex(),
    {
        FLARef { fixed: &self.fixed, flex: self.elems.as_slice() }
    }

    /// Borrows both parts at once, exclusively.
    pub fn as_mut(&mut self) -> (r: FLARefMut<'_, NF, T>)
        ensures
            *r.fixed == old(self).spec_fixed(),
            r.flex@ == old(self).spec_flex(),
            final(self).spec_fixed() == *final(r.fixed),
            final(self).spec_flex() == final(r.flex)@,
    {
        FLARefMut { fixed: &mut self.fixed, flex: self.elems.as_mut_slice() }
    }
}

/// Building from collected iterator output is the same as building from an
/// equal slice: `new` and `new_with_iter` each pin the whole array to the
/// header and element sequence they were given, so any two arrays built from
/// the same header and elements are content-identical, whichever constructor
/// made them.
pub proof fn lemma_new_with_iter_matches_new<NF, T: Copy>(
    a: FlexArray<NF, T>,
    b: FlexArray<NF, T>,
    fixed: NF,
    elems: Seq<T>,
)
    requires
        a.spec_fixed() == fixed,
        a.spec_flex() == elems,
        b.spec_fixed() == fixed,
        b.spec_flex() == elems,
    ensures
        a.spec_fixed() == b.spec_fixed(),
        a.spec_flex() == b.spec_flex(),
{
}

} // verus!
