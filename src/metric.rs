//! The CIEDE2000 color-difference metric on packed 5/6/5 colors.
use vstd::prelude::*;

use crate::color::{Rgb565, Rgb888};

verus! {

/// A 5-bit channel (red, blue) widened to eight bits: shifted left by 3.
pub open spec fn widen5(c: u8) -> int {
    c * 8
}

/// A 6-bit channel (green) widened to eight bits: shifted left by 2.
pub open spec fn widen6(c: u8) -> int {
    c * 4
}

/// The CIEDE2000 color-difference metric. It holds no state.
#[derive(Clone, Copy, Debug, PartialEq, Eq, Structural)]
pub struct CIEDE2000 {}

impl CIEDE2000 {
    /// The metric's handle.
    pub fn new() -> (m: Self)
        ensures
            m == (CIEDE2000 {}),
    {
        CIEDE2000 {}
    }

    /// Widens a packed 5/6/5 color to eight bits per channel: red and blue
    /// are shifted left by 3 bits (at most 248), green by 2 bits (at most
    /// 252). The low bits stay zero.
    pub fn rgb565_to_rgb888(color: Rgb565) -> (out: Rgb888)
        ensures
            out.r() == widen5(color.r()),
            out.g() == widen6(color.g()),
            out.b() == widen5(color.b()),
    {
        let r: u8 = color.r();
        let g: u8 = color.g();
        let b: u8 = color.b();
        assert(r << 3u8 == r * 8) by (bit_vector)
            requires r <= 31u8;
        assert(g << 2u8 == g * 4) by (bit_vector)
            requires g <= 63u8;
        assert(b << 3u8 == b * 8) by (bit_vector)
            requires b <= 31u8;
        Rgb888::new(r << 3u8, g << 2u8, b << 3u8)
    }
}

} // verus!
