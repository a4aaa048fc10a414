//! Color values: a packed 5/6/5 color and an 8-bit-per-channel color.
use vstd::prelude::*;

verus! {

/// Largest value of a 5-bit channel (red, blue).
pub const MAX5: u8 = 31;

/// Largest value of a 6-bit channel (green).
pub const MAX6: u8 = 63;

/// A color of a 16-bit display buffer, its three channels already taken
/// apart: red and blue in 5 bits, green in 6 bits.
#[derive(Clone, Copy, Debug, PartialEq, Eq, Structural)]
pub struct Rgb565 {
    r: u8,
    g: u8,
    b: u8,
}

impl Rgb565 {
    #[verifier::type_invariant]
    spec fn channels_in_range(self) -> bool {
        self.r <= MAX5 && self.g <= MAX6 && self.b <= MAX5
    }

    pub closed spec fn spec_r(&self) -> u8 {
        self.r
    }

    pub closed spec fn spec_g(&self) -> u8 {
        self.g
    }

    pub closed spec fn spec_b(&self) -> u8 {
        self.b
    }

    /// Builds a packed color from its channels; each must fit its bit width.
    pub fn new(r: u8, g: u8, b: u8) -> (c: Self)
        requires
            r <= MAX5,
            g <= MAX6,
            b <= MAX5,
        ensures
            c.r() == r,
            c.g() == g,
            c.b() == b,
    {
        Rgb565 { r, g, b }
    }

    /// The 5-bit red channel.
    #[verifier::when_used_as_spec(spec_r)]
    pub fn r(&self) -> (v: u8)
        ensures
            v == self.spec_r(),
            v <= MAX5,
    {
        proof {
            use_type_invariant(self);
        }
        self.r
    }

    /// The 6-bit green channel.
    #[verifier::when_used_as_spec(spec_g)]
    pub fn g(&self) -> (v: u8)
        ensures
            v == self.spec_g(),
            v <= MAX6,
    {
        proof {
            use_type_invariant(self);
        }
        self.g
    }

    /// The 5-bit blue channel.
    #[verifier::when_used_as_spec(spec_b)]
    pub fn b(&self) -> (v: u8)
        ensures
            v == self.spec_b(),
            v <= MAX5,
    {
        proof {
            use_type_invariant(self);
        }
        self.b
    }
}

/// A color with eight bits per channel.
#[derive(Clone, Copy, Debug, PartialEq, Eq, Structural)]
pub struct Rgb888 {
    r: u8,
    g: u8,
    b: u8,
}

impl Rgb888 {
    pub closed spec fn spec_r(&self) -> u8 {
        self.r
    }

    pub closed spec fn spec_g(&self) -> u8 {
        self.g
    }

    pub closed spec fn spec_b(&self) -> u8 {
        self.b
    }

    /// Builds a color from its three 8-bit channels.
    pub fn new(r: u8, g: u8, b: u8) -> (c: Self)
        ensures
            c.r() == r,
            c.g() == g,
            c.b() == b,
    {
        Rgb888 { r, g, b }
    }

    /// The red channel.
    #[verifier::when_used_as_spec(spec_r)]
    pub fn r(&self) -> (v: u8)
        ensures
            v == self.spec_r(),
    {
        self.r
    }

    /// The green channel.
    #[verifier::when_used_as_spec(spec_g)]
    pub fn g(&self) -> (v: u8)
        ensures
            v == self.spec_g(),
    {
        self.g
    }

    /// The blue channel.
    #[verifier::when_used_as_spec(spec_b)]
    pub fn b(&self) -> (v: u8)
        ensures
            v == self.spec_b(),
    {
        self.b
    }
}

} // verus!
