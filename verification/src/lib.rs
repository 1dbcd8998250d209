//! Verified core of a WGSL front end's syntax tree, its arena allocator, and
//! the target-selection logic of the DXC compiler download.

pub mod arena;
pub mod ast;
pub mod directive;
pub mod dxc;
pub mod index_set;
pub mod ir;
pub mod memory;
pub mod number;
pub mod span;
pub mod text;
