//! Canonical cyberpunk palette as `(r, g, b)` triples.
//!
//! Front-ends convert these into their native colour type.

use vstd::prelude::*;

verus! {

/// Neon green — excellent.
pub const GREEN: (u8, u8, u8) = (0x00, 0xff, 0x80);

/// Cyan — good.
pub const CYAN: (u8, u8, u8) = (0x00, 0xff, 0xff);

/// Yellow — average.
pub const YELLOW: (u8, u8, u8) = (0xff, 0xdc, 0x00);

/// Orange — poor.
pub const ORANGE: (u8, u8, u8) = (0xff, 0x8c, 0x00);

/// Red — very poor.
pub const RED: (u8, u8, u8) = (0xff, 0x3c, 0x3c);

/// Dim grey — failed / no data.
pub const DIM: (u8, u8, u8) = (0x50, 0x50, 0x64);

} // verus!
