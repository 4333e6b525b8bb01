use vstd::prelude::*;

use crate::led::pixel::Pixel;

verus! {

/// A set of LEDs that can be written out to a strip.
pub trait LedArray {
    /// The pixels in the order in which the hardware chain expects them.
    spec fn display_order(&self) -> Seq<Pixel>;

    /// Returns the pixels in the order they should be displayed according to the hardware.
    fn ordered_iter(&self) -> (pixels: Vec<Pixel>)
        ensures
            pixels@ == self.display_order(),
    ;
}

} // verus!
