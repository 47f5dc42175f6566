//! Plain single-field wrappers around a value.
//!
//! The names record the thread-safety waivers these wrappers stand for; a
//! marker waiver is not expressible without an `unsafe impl`, so here they
//! are transparent owning wrappers whose accessors are fully specified.

use vstd::prelude::*;

verus! {

pub struct UncheckedSend<T> {
    inner: T,
}

impl<T> UncheckedSend<T> {
    pub closed spec fn spec_inner(&self) -> T {
        self.inner
    }

    pub fn new(inner: T) -> (r: Self)
        ensures
            r.spec_inner() == inner,
    {
        Self { inner }
    }

    pub fn as_ref(&self) -> (r: &T)
        ensures
            *r == self.spec_inner(),
    {
        &self.inner
    }

    pub fn as_mut(&mut self) -> (r: &mut T)
        ensures
            *r == old(self).spec_inner(),
            final(self).spec_inner() == *final(r),
    {
        &mut self.inner
    }

    pub fn into_inner(self) -> (r: T)
        ensures
            r == self.spec_inner(),
    {
        self.inner
    }
}

pub struct UncheckedSendSync<T> {
    inner: T,
}

impl<T> UncheckedSendSync<T> {
    pub closed spec fn spec_inner(&self) -> T {
        self.inner
    }

    pub fn new(inner: T) -> (r: Self)
        ensures
            r.spec_inner() == inner,
    {
        Self { inner }
    }

    pub fn as_ref(&self) -> (r: &T)
        ensures
            *r == self.spec_inner(),
    {
        &self.inner
    }

    pub fn as_mut(&mut self) -> (r: &mut T)
        ensures
            *r == old(self).spec_inner(),
            final(self).spec_inner() == *final(r),
    {
        &mut self.inner
    }

    pub fn into_inner(self) -> (r: T)
        ensures
            r == self.spec_inner(),
    {
        self.inner
    }
}

} // verus!
