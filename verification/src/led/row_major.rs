use vstd::prelude::*;

use crate::led::interface::led_rectangular_array::GridView;
use crate::led::interface::LedArray;
use crate::led::pixel::Pixel;
use vstd::arithmetic::div_mod::lemma_fundamental_div_mod_converse;

verus! {

/// A `width` x `height` grid of LEDs wired row by row: the chain runs along
/// row 0 from left to right, then along row 1, and so on. A new grid shows a
/// dim blue-ish (5, 10, 20) on every LED.
pub struct LedRectangularArray {
    width: usize,
    height: usize,
    pixels: Vec<Vec<Pixel>>,
}

/// The first `n` rows, one after the other.
pub open spec fn rows_prefix(rows: Seq<Seq<Pixel>>, n: nat) -> Seq<Pixel>
    decreases n,
{
    if n == 0 {
        Seq::empty()
    } else {
        rows_prefix(rows, (n - 1) as nat) + rows[n - 1]
    }
}

impl View for LedRectangularArray {
    type V = GridView;

    closed spec fn view(&self) -> GridView {
        GridView {
            width: self.width as nat,
            height: self.height as nat,
            rows: self.pixels@.map_values(|row: Vec<Pixel>| row@),
        }
    }
}

impl LedRectangularArray {
    /// The grid, one sequence per row, row 0 first.
    pub open spec fn rows(&self) -> Seq<Seq<Pixel>> {
        self@.rows
    }

    /// The pixel at column `x` of row `y`.
    pub open spec fn pixel_at(&self, x: int, y: int) -> Pixel {
        self.rows()[y][x]
    }

    /// The grid has `height` rows of `width` pixels each.
    pub open spec fn wf(&self) -> bool {
        &&& self.rows().len() == self@.height
        &&& forall|y: int| 0 <= y < self@.height ==> (#[trigger] self.rows()[y]).len() == self@.width
    }

    /// Creates a grid of the given size with every pixel at (5, 10, 20).
    pub fn new(width: usize, height: usize) -> (array: Self)
        ensures
            array.wf(),
            array@.width == width,
            array@.height == height,
            forall|x: int, y: int|
                0 <= x < width && 0 <= y < height ==> (#[trigger] array.pixel_at(x, y))@ == (
                    5u8,
                    10u8,
                    20u8,
                ),
    {
        let mut pixels: Vec<Vec<Pixel>> = Vec::new();
        let mut y: usize = 0;
        while y < height
            invariant
                y <= height,
                pixels@.len() == y,
                forall|j: int|
                    0 <= j < y ==> (#[trigger] pixels@[j])@.len() == width && forall|i: int|
                        0 <= i < width ==> (#[trigger] pixels@[j]@[i])@ == (5u8, 10u8, 20u8),
            decreases height - y,
        {
            let mut row: Vec<Pixel> = Vec::new();
            let mut x: usize = 0;
            while x < width
                invariant
                    x <= width,
                    row@.len() == x,
                    forall|i: int| 0 <= i < x ==> (#[trigger] row@[i])@ == (5u8, 10u8, 20u8),
                decreases width - x,
            {
                row.push(Pixel::new(5, 10, 20));
                x = x + 1;
            }
            pixels.push(row);
            y = y + 1;
        }
        let array = LedRectangularArray { width, height, pixels };
        assert forall|x: int, y: int| 0 <= x < width && 0 <= y < height implies (
        #[trigger] array.pixel_at(x, y))@ == (5u8, 10u8, 20u8) by {
            assert(array.rows()[y] == array.pixels@[y]@);
        }
        assert forall|y: int| 0 <= y < array@.height implies (#[trigger] array.rows()[y]).len()
            == array@.width by {
            assert(array.rows()[y] == array.pixels@[y]@);
        }
        array
    }

    /// Replaces the pixel at column `x` of row `y`.
    pub fn set_pixel(&mut self, x: usize, y: usize, pixel: Pixel)
        requires
            old(self).wf(),
            x < old(self)@.width,
            y < old(self)@.height,
        ensures
            final(self).wf(),
            final(self)@.width == old(self)@.width,
            final(self)@.height == old(self)@.height,
            final(self).rows() == old(self).rows().update(
                y as int,
                old(self).rows()[y as int].update(x as int, pixel),
            ),
            final(self).pixel_at(x as int, y as int) == pixel,
    {
        let ghost before = self.rows();
        assert(self.pixels@[y as int]@ == before[y as int]);
        self.pixels[y][x] = pixel;
        assert(self.rows() =~= before.update(y as int, before[y as int].update(x as int, pixel)))
            by {
            assert forall|j: int| 0 <= j < self.rows().len() implies #[trigger] self.rows()[j]
                == before.update(y as int, before[y as int].update(x as int, pixel))[j] by {
                if j == y {
                    assert(self.rows()[j] =~= before[y as int].update(x as int, pixel));
                }
            }
        }
    }

    /// The display order lists the rows one after the other: position `k`
    /// holds the pixel of column `k % width` in row `k / width`.
    pub proof fn lemma_display_order_pointwise(&self)
        requires
            self.wf(),
        ensures
            self.display_order().len() == self@.width * self@.height,
            forall|k: int|
                0 <= k < self@.width * self@.height ==> #[trigger] self.display_order()[k]
                    == self.pixel_at(k % self@.width as int, k / self@.width as int),
    {
        lemma_rows_prefix_pointwise(self.rows(), self@.width as int, self.rows().len());
        assert(self@.height * self@.width == self@.width * self@.height) by (nonlinear_arith);
    }
}

/// The first `n` rows of a grid whose rows all have `width` pixels, laid end
/// to end: position `k` holds column `k % width` of row `k / width`.
proof fn lemma_rows_prefix_pointwise(rows: Seq<Seq<Pixel>>, width: int, n: nat)
    requires
        width >= 0,
        n <= rows.len(),
        forall|y: int| 0 <= y < rows.len() ==> (#[trigger] rows[y]).len() == width,
    ensures
        rows_prefix(rows, n).len() == n * width,
        forall|k: int|
            0 <= k < n * width ==> #[trigger] rows_prefix(rows, n)[k] == rows[k / width][k
                % width],
    decreases n,
{
    if n == 0 {
        assert(n * width == 0);
    } else {
        let m: nat = (n - 1) as nat;
        lemma_rows_prefix_pointwise(rows, width, m);
        assert(rows[n - 1].len() == width);
        assert(m * width + width == n * width) by (nonlinear_arith)
            requires
                m == n - 1,
        ;
        let prefix = rows_prefix(rows, n);
        assert forall|k: int| 0 <= k < n * width implies #[trigger] prefix[k] == rows[k
            / width][k % width] by {
            if k >= m * width {
                let r: int = k - m * width;
                lemma_fundamental_div_mod_converse(k, width, m as int, r);
                assert(prefix[k] == rows[n - 1][r]);
            } else {
                assert(prefix[k] == rows_prefix(rows, m)[k]);
            }
        }
    }
}

impl LedArray for LedRectangularArray {
    open spec fn display_order(&self) -> Seq<Pixel> {
        rows_prefix(self.rows(), self.rows().len())
    }

    fn ordered_iter(&self) -> (pixels: Vec<Pixel>) {
        let height: usize = self.pixels.len();
        let ghost rows = self.rows();
        let mut out: Vec<Pixel> = Vec::new();
        let mut i: usize = 0;
        while i < height
            invariant
                height == self.pixels@.len(),
                rows == self.rows(),
                i <= height,
                out@ == rows_prefix(rows, i as nat),
            decreases height - i,
        {
            let row = &self.pixels[i];
            assert(row@ == rows[i as int]);
            let width: usize = row.len();
            let ghost start = out@;
            let mut j: usize = 0;
            while j < width
                invariant
                    width == row@.len(),
                    j <= width,
                    out@ == start + row@.take(j as int),
                decreases width - j,
            {
                assert(row@.take(j as int + 1) =~= row@.take(j as int).push(row@[j as int]));
                out.push(row[j]);
                j = j + 1;
            }
            assert(row@.take(width as int) =~= row@);
            i = i + 1;
        }
        out
    }
}

} // verus!
