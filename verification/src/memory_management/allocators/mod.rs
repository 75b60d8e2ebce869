//! Memory allocators.

pub mod allocator;
pub mod static_allocator;
