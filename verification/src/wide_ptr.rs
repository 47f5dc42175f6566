//! Yet another wide pointer: the two machine words of a fat pointer, held as
//! plain integers.

use vstd::prelude::*;

verus! {

#[derive(Clone, Copy, Debug, Eq, Hash, PartialEq, Structural)]
pub struct WidePointer {
    pub ptr: usize,
    pub trivia: usize,
}

impl WidePointer {
    pub fn new(ptr: usize, trivia: usize) -> (r: Self)
        ensures
            r.ptr == ptr,
            r.trivia == trivia,
    {
        Self { ptr, trivia }
    }
}

impl Default for WidePointer {
    fn default() -> (r: Self)
        ensures
            r.ptr == 0,
            r.trivia == 0,
    {
        Self::new(0, 0)
    }
}

} // verus!
