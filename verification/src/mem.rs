//! Raw memory utilities: moving a value onto the heap.

use vstd::prelude::*;

verus! {

/// Moves the given value to the heap, returning the owning handle to it.
pub fn move_to_heap<T>(data: T) -> (r: Box<T>)
    ensures
        *r == data,
{
    Box::new(data)
}

} // verus!
