//! Single-precision numbers as bit patterns.
//!
//! Colors, depths and matrices pass through the techniques untouched, so they
//! are carried as the IEEE-754 bit pattern of each component. Two values are
//! equal here exactly when their bits are.

use vstd::prelude::*;

verus! {

/// One single-precision number, as its IEEE-754 bit pattern.
pub type Bits = u32;

/// Four components: a color (red, green, blue, alpha) or a vector.
pub type GFormat = [Bits; 4];

/// A 4x4 matrix, as four arrays of four components.
pub type Matrix = [[Bits; 4]; 4];

/// The bit pattern of one.
pub const ONE: Bits = 0x3f80_0000;

} // verus!
