//! Numeric literals.

use vstd::prelude::*;

verus! {

/// A numeric literal with the type its suffix or form gives it. Floating-point
/// values are held as their IEEE 754 bit patterns.
#[derive(Debug, Clone, Copy, PartialEq, Eq)]
pub enum Number {
    /// An integer without a suffix.
    AbstractInt(i64),
    /// A floating-point number without a suffix, as 64-bit float bits.
    AbstractFloat(u64),
    I32(i32),
    U32(u32),
    I64(i64),
    U64(u64),
    /// As 16-bit float bits.
    F16(u16),
    /// As 32-bit float bits.
    F32(u32),
    /// As 64-bit float bits.
    F64(u64),
}

} // verus!
