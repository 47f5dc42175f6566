//! Trait-plugging helpers with no substance of their own.

use vstd::prelude::*;

verus! {

/// A trait with no substance at all; every type implements it.
pub trait Wife {}

impl<T: ?Sized> Wife for T {}

} // verus!
