//! A simple `Either` sum type.
//!
//! Isomorphic with `Result`, but carries none of `Result`'s error-handling
//! connotations: use it for a value that is simply one of two things.

use vstd::prelude::*;

verus! {

#[derive(Debug, Clone)]
pub enum Either<T1, T2> {
    Left(T1),
    Right(T2),
}

} // verus!
