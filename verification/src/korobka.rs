//! An owning heap pointer: a `Box` replacement with an explicit contract.
//!
//! A `Korobka` owns exactly one heap-allocated value; the value is read
//! through [`Korobka::as_ref`] and released when the `Korobka` is dropped.

use vstd::prelude::*;

verus! {

/// An exclusive owning pointer to one heap-allocated value.
#[derive(Debug, Hash)]
pub struct Korobka<T>(Box<T>);

impl<T> Korobka<T> {
    /// The owned value.
    pub closed spec fn spec_value(&self) -> T {
        *self.0
    }

    /// Moves `t` onto the heap and takes ownership of it.
    pub fn new(t: T) -> (r: Self)
        ensures
            r.spec_value() == t,
    {
        Self(Box::new(t))
    }

    /// Borrows the owned value.
    pub fn as_ref(&self) -> (r: &T)
        ensures
            *r == self.spec_value(),
    {
        &*self.0
    }

    /// Hands the owned value back, ending this pointer's ownership.
    pub fn into_inner(self) -> (r: T)
        ensures
            r == self.spec_value(),
    {
        *self.0
    }
}

impl<T> From<Box<T>> for Korobka<T> {
    /// Takes over an allocation that a `Box` already owns.
    fn from(boxed: Box<T>) -> (r: Self)
        ensures
            r.spec_value() == *boxed,
    {
        Self(boxed)
    }
}

impl<T: PartialEq + vstd::std_specs::cmp::PartialEqSpec> PartialEq for Korobka<T> {
    /// Two pointers are equal exactly when the values they own are: the
    /// comparison delegates to the pointee, never to addresses.
    fn eq(&self, other: &Self) -> (r: bool) {
        (*self.0).eq(&*other.0)
    }
}

impl<T: Eq + PartialEq + vstd::std_specs::cmp::PartialEqSpec> Eq for Korobka<T> {

}

impl<T: PartialEq + vstd::std_specs::cmp::PartialEqSpec> vstd::std_specs::cmp::PartialEqSpecImpl for Korobka<T> {
    open spec fn obeys_eq_spec() -> bool {
        T::obeys_eq_spec()
    }

    open spec fn eq_spec(&self, other: &Self) -> bool {
        self.spec_value().eq_spec(&other.spec_value())
    }
}

impl<T> vstd::std_specs::convert::FromSpecImpl<Box<T>> for Korobka<T> {
    closed spec fn obeys_from_spec() -> bool {
        true
    }

    closed spec fn from_spec(boxed: Box<T>) -> Self {
        Korobka(boxed)
    }
}

} // verus!
