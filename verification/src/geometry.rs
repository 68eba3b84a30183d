//! Pixel sizes as reported by a host window.

use vstd::prelude::*;

verus! {

/// A size in physical pixels, as a window reports it. Either dimension may be zero.
#[derive(Clone, Copy, Debug, PartialEq, Eq, Structural)]
pub struct PixelSize {
    pub width: u32,
    pub height: u32,
}

impl PixelSize {
    /// True when a surface of this size would have no pixels.
    pub open spec fn has_zero_dimension(self) -> bool {
        self.width == 0 || self.height == 0
    }

    pub fn new(width: u32, height: u32) -> (size: PixelSize)
        ensures
            size == (PixelSize { width, height }),
    {
        PixelSize { width, height }
    }

    /// Both dimensions, provided neither is zero.
    pub fn non_zero(self) -> (dims: Option<(u32, u32)>)
        ensures
            dims == if self.has_zero_dimension() {
                None::<(u32, u32)>
            } else {
                Some((self.width, self.height))
            },
    {
        if self.width == 0 || self.height == 0 {
            None
        } else {
            Some((self.width, self.height))
        }
    }
}

/// The signed 32-bit value with the same bit pattern as `v`: `v` itself up to `i32::MAX`,
/// and `v - 2^32` above it.
pub open spec fn reinterpret_signed(v: u32) -> int {
    if v <= i32::MAX {
        v as int
    } else {
        v - 0x1_0000_0000
    }
}

/// Reinterprets an unsigned pixel count as the signed integer a renderer takes.
pub fn to_signed(v: u32) -> (s: i32)
    ensures
        s == reinterpret_signed(v),
{
    if v <= 0x7fff_ffff {
        v as i32
    } else {
        let low: u32 = v - 0x8000_0000;
        (low as i32) + i32::MIN
    }
}

} // verus!
