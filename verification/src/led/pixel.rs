use vstd::prelude::*;

verus! {

/// The colour of one LED, one byte per channel.
#[derive(Clone, Copy, Debug, PartialEq, Eq, Structural)]
pub struct Pixel {
    r: u8,
    g: u8,
    b: u8,
}

impl View for Pixel {
    type V = (u8, u8, u8);

    closed spec fn view(&self) -> (u8, u8, u8) {
        (self.r, self.g, self.b)
    }
}

impl Pixel {
    pub fn new(r: u8, g: u8, b: u8) -> (pixel: Self)
        ensures
            pixel@ == (r, g, b),
    {
        Pixel { r, g, b }
    }

    /// The red, green and blue channels, in that order.
    pub fn components(&self) -> (rgb: (u8, u8, u8))
        ensures
            rgb == self@,
    {
        (self.r, self.g, self.b)
    }
}

impl Default for Pixel {
    /// A pixel that is off: all channels zero.
    fn default() -> (pixel: Self)
        ensures
            pixel@ == (0u8, 0u8, 0u8),
    {
        Pixel { r: 0, g: 0, b: 0 }
    }
}

} // verus!
