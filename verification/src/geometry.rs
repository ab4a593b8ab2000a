//! Basic geometric and color values shared by every primitive: an opaque RGBA
//! color, an axis-aligned integer rectangle, and clamping helpers.

use vstd::prelude::*;

verus! {

/// An RGBA color with 8-bit channels.
#[derive(Clone, Copy, Debug, PartialEq, Eq, Structural)]
pub struct Color {
    pub r: u8,
    pub g: u8,
    pub b: u8,
    pub a: u8,
}

impl Color {
    /// The opaque gray with all three channels at `level`.
    pub open spec fn spec_from_gray(level: u8) -> Color {
        Color { r: level, g: level, b: level, a: 255 }
    }

    /// Builds the opaque gray with all three channels at `level`.
    #[verifier::when_used_as_spec(spec_from_gray)]
    pub fn from_gray(level: u8) -> (c: Color)
        ensures
            c == Color::spec_from_gray(level),
    {
        Color { r: level, g: level, b: level, a: 255 }
    }
}

/// An axis-aligned rectangle in integer screen units. A region is
/// non-degenerate when `left < right` and `top < bottom`.
#[derive(Clone, Copy, Debug, PartialEq, Eq, Structural)]
pub struct Region {
    pub left: i32,
    pub top: i32,
    pub right: i32,
    pub bottom: i32,
}

impl Region {
    pub open spec fn width(self) -> int {
        self.right - self.left
    }

    pub open spec fn height(self) -> int {
        self.bottom - self.top
    }

    /// A degenerate region has no interior and produces no primitives.
    pub open spec fn is_degenerate(self) -> bool {
        self.width() <= 0 || self.height() <= 0
    }

    /// The zero-size rectangle at this region's top-left corner, used as the
    /// interaction claim when the region itself is degenerate.
    pub open spec fn collapsed(self) -> Region {
        Region { left: self.left, top: self.top, right: self.left, bottom: self.top }
    }

    /// Whether `inner` lies entirely within `self` (emptiness allowed).
    pub open spec fn contains_region(self, inner: Region) -> bool {
        &&& self.left <= inner.left
        &&& inner.right <= self.right
        &&& self.top <= inner.top
        &&& inner.bottom <= self.bottom
        &&& inner.left <= inner.right
        &&& inner.top <= inner.bottom
    }

    /// Whether the point `(x, y)` lies within `self`, boundary included.
    pub open spec fn contains_point(self, x: int, y: int) -> bool {
        self.left <= x <= self.right && self.top <= y <= self.bottom
    }

    /// Builds the new region `collapsed()`.
    pub fn make_collapsed(&self) -> (r: Region)
        ensures
            r == self.collapsed(),
    {
        Region { left: self.left, top: self.top, right: self.left, bottom: self.top }
    }

    /// Reports whether the region is degenerate.
    pub fn check_degenerate(&self) -> (d: bool)
        ensures
            d == self.is_degenerate(),
    {
        self.right <= self.left || self.bottom <= self.top
    }
}

/// `x` forced into the interval `[lo, hi]`.
pub open spec fn spec_clamp(x: int, lo: int, hi: int) -> int {
    if x < lo {
        lo
    } else if x > hi {
        hi
    } else {
        x
    }
}

/// Forces `x` into the interval `[lo, hi]`.
pub fn clamp_i64(x: i64, lo: i64, hi: i64) -> (r: i64)
    requires
        lo <= hi,
    ensures
        r == spec_clamp(x as int, lo as int, hi as int),
        lo <= r <= hi,
{
    if x < lo {
        lo
    } else if x > hi {
        hi
    } else {
        x
    }
}

} // verus!
