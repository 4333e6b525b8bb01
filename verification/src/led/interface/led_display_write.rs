use vstd::prelude::*;

use super::LedArray;

verus! {

/// Why a display could not be written.
#[derive(Clone, Copy, Debug, PartialEq, Eq, Structural)]
pub enum DisplayError {
    /// The LED driver refused the colour stream.
    Driver,
}

/// Something that can show an LED array.
pub trait LedDisplayWrite {
    fn output_to_display<A: LedArray>(&mut self, array: &A) -> Result<(), DisplayError>;
}

} // verus!
