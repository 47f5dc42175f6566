//! A collection of small, independent utility types: an owning pointer, a
//! flexible-array allocation, two arena allocators, and assorted helpers.

pub mod either;
pub mod flex;
pub mod http_commons;
pub mod korobka;
pub mod mem;
pub mod slice_arena;
pub mod typed_arena;
pub mod unchecked;
pub mod void;
pub mod wide_ptr;
pub mod zvec;
