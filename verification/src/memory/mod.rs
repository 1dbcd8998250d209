//! Arena allocation for the syntax tree.

pub mod allocator;

pub use allocator::Allocator;
pub mod vec;
pub use vec::Vec;
