use vstd::prelude::*;

use crate::led::interface::LedRectangularArray;
use crate::led::pixel::Pixel;

verus! {

/// The colour of the test pattern at column `x` of row `y`: red grows from
/// left to right, green from top to bottom, blue is off.
pub open spec fn test_pattern_at(x: int, y: int) -> (u8, u8, u8) {
    ((x * 255 / 16) as u8, (y * 255 / 16) as u8, 0u8)
}

/// Paints the 16 x 16 colour-gradient test pattern onto the matrix.
pub fn fill_test_pattern(array: &mut LedRectangularArray)
    requires
        old(array).wf(),
        old(array)@.width == 16,
        old(array)@.height == 16,
    ensures
        final(array).wf(),
        final(array)@.width == 16,
        final(array)@.height == 16,
        forall|x: int, y: int|
            0 <= x < 16 && 0 <= y < 16 ==> (#[trigger] final(array).pixel_at(x, y))@
                == test_pattern_at(x, y),
{
    let mut y: usize = 0;
    while y < 16
        invariant
            y <= 16,
            array.wf(),
            array@.width == 16,
            array@.height == 16,
            forall|i: int, j: int|
                0 <= i < 16 && 0 <= j < y ==> (#[trigger] array.pixel_at(i, j))@
                    == test_pattern_at(i, j),
        decreases 16 - y,
    {
        let mut x: usize = 0;
        while x < 16
            invariant
                x <= 16,
                y < 16,
                array.wf(),
                array@.width == 16,
                array@.height == 16,
                forall|i: int, j: int|
                    0 <= i < 16 && 0 <= j < y ==> (#[trigger] array.pixel_at(i, j))@
                        == test_pattern_at(i, j),
                forall|i: int| 0 <= i < x ==> (#[trigger] array.pixel_at(i, y as int))@
                    == test_pattern_at(i, y as int),
            decreases 16 - x,
        {
            let r: u8 = (x * 255 / 16) as u8;
            let g: u8 = (y * 255 / 16) as u8;
            let ghost snapshot = *array;
            let ghost before = array.rows();
            array.set_pixel(x, y, Pixel::new(r, g, 0));
            assert forall|i: int, j: int|
                0 <= i < 16 && 0 <= j < y implies (#[trigger] array.pixel_at(i, j))@
                == test_pattern_at(i, j) by {
                assert(snapshot.pixel_at(i, j)@ == test_pattern_at(i, j));
                assert(array.pixel_at(i, j) == before[j][i]);
            }
            assert forall|i: int| 0 <= i < x + 1 implies (#[trigger] array.pixel_at(
                i,
                y as int,
            ))@ == test_pattern_at(i, y as int) by {
                if i < x {
                    assert(snapshot.pixel_at(i, y as int)@ == test_pattern_at(i, y as int));
                    assert(array.pixel_at(i, y as int) == before[y as int][i]);
                }
            }
            x = x + 1;
        }
        y = y + 1;
    }
}

} // verus!
