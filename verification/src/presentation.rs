//! UI-agnostic presentation helpers: the mapping from a connection quality
//! to its colour, shared by every front-end.

pub mod palette;

use vstd::prelude::*;
use crate::types::ConnectionQuality;

verus! {

/// The palette colour of each connection quality.
pub open spec fn quality_colour(quality: ConnectionQuality) -> (u8, u8, u8) {
    match quality {
        ConnectionQuality::Excellent => palette::GREEN,
        ConnectionQuality::Good => palette::CYAN,
        ConnectionQuality::Average => palette::YELLOW,
        ConnectionQuality::Poor => palette::ORANGE,
        ConnectionQuality::VeryPoor => palette::RED,
        ConnectionQuality::Failed => palette::DIM,
    }
}

/// Return the canonical `(r, g, b)` colour for a [`ConnectionQuality`].
///
/// This is the single source of truth used by [`quality_color`].
pub fn quality_rgb(quality: ConnectionQuality) -> (rgb: (u8, u8, u8))
    ensures
        rgb == quality_colour(quality),
{
    match quality {
        ConnectionQuality::Excellent => palette::GREEN,
        ConnectionQuality::Good => palette::CYAN,
        ConnectionQuality::Average => palette::YELLOW,
        ConnectionQuality::Poor => palette::ORANGE,
        ConnectionQuality::VeryPoor => palette::RED,
        ConnectionQuality::Failed => palette::DIM,
    }
}

/// Map a [`ConnectionQuality`] to a front-end colour type built by `ctor`
/// from the canonical palette, so every front-end shows the same colours.
pub fn quality_color<C, F: Fn(u8, u8, u8) -> C>(quality: ConnectionQuality, ctor: F) -> (c: C)
    requires
        call_requires(
            ctor,
            (quality_colour(quality).0, quality_colour(quality).1, quality_colour(quality).2),
        ),
    ensures
        call_ensures(
            ctor,
            (quality_colour(quality).0, quality_colour(quality).1, quality_colour(quality).2),
            c,
        ),
{
    let (r, g, b) = quality_rgb(quality);
    ctor(r, g, b)
}

/// No two qualities share a colour, so a colour identifies its rating.
pub proof fn quality_colours_are_distinct(a: ConnectionQuality, b: ConnectionQuality)
    requires
        a != b,
    ensures
        quality_colour(a) != quality_colour(b),
{
}

} // verus!
