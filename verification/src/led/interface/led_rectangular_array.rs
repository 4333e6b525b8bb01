use vstd::prelude::*;

use super::LedArray;
use crate::led::pixel::Pixel;
use vstd::arithmetic::div_mod::lemma_fundamental_div_mod_converse;

verus! {

/// A `width` x `height` grid of LEDs wired as a serpentine chain: the chain
/// starts at the left end of the bottom row, runs along it, climbs to the row
/// above and runs back, and so on up to the top row.
pub struct LedRectangularArray {
    pub width: usize,
    pub height: usize,
    pixels: Vec<Vec<Pixel>>,
}

/// Row `i` of the chain read in wiring order: rows at even distance from the
/// bottom run left to right, the others right to left.
pub open spec fn oriented_row(row: Seq<Pixel>, i: int) -> Seq<Pixel> {
    if i % 2 == 0 {
        row
    } else {
        row.reverse()
    }
}

/// The first `n` rows of the chain, counted from the bottom row `rows.last()`.
pub open spec fn chain_prefix(rows: Seq<Seq<Pixel>>, n: nat) -> Seq<Pixel>
    decreases n,
{
    if n == 0 {
        Seq::empty()
    } else {
        chain_prefix(rows, (n - 1) as nat) + oriented_row(rows[rows.len() - n], n - 1)
    }
}

/// The grid row (counted from the top) that holds chain position `k`.
pub open spec fn chain_row(width: int, height: int, k: int) -> int {
    height - 1 - k / width
}

/// The grid column that holds chain position `k`.
pub open spec fn chain_column(width: int, k: int) -> int {
    if (k / width) % 2 == 0 {
        k % width
    } else {
        width - 1 - k % width
    }
}

/// The chain position of the LED at column `x` of row `y` (rows counted from the top).
pub open spec fn chain_position(width: int, height: int, x: int, y: int) -> int {
    let from_bottom: int = height - 1 - y;
    from_bottom * width + if from_bottom % 2 == 0 {
        x
    } else {
        width - 1 - x
    }
}

/// The abstract content of a grid: its declared size and its rows, row 0 first.
pub struct GridView {
    pub width: nat,
    pub height: nat,
    pub rows: Seq<Seq<Pixel>>,
}

impl View for LedRectangularArray {
    type V = GridView;

    closed spec fn view(&self) -> GridView {
        GridView {
            width: self.width as nat,
            height: self.height as nat,
            rows: self.pixels@.map_values(|row: Vec<Pixel>| row@),
        }
    }
}

impl LedRectangularArray {
    /// The grid, one sequence per row, row 0 first.
    pub open spec fn rows(&self) -> Seq<Seq<Pixel>> {
        self@.rows
    }

    /// The pixel at column `x` of row `y`.
    pub open spec fn pixel_at(&self, x: int, y: int) -> Pixel {
        self.rows()[y][x]
    }

    /// The grid has `height` rows of `width` pixels each.
    pub open spec fn wf(&self) -> bool {
        &&& self.rows().len() == self@.height
        &&& forall|y: int| 0 <= y < self@.height ==> (#[trigger] self.rows()[y]).len() == self@.width
    }

    /// Creates a grid of the given size with every pixel off.
    pub fn new(width: usize, height: usize) -> (array: Self)
        ensures
            array.wf(),
            array@.width == width,
            array@.height == height,
            forall|x: int, y: int|
                0 <= x < width && 0 <= y < height ==> (#[trigger] array.pixel_at(x, y))@ == (
                    0u8,
                    0u8,
                    0u8,
                ),
    {
        let mut pixels: Vec<Vec<Pixel>> = Vec::new();
        let mut y: usize = 0;
        while y < height
            invariant
                y <= height,
                pixels@.len() == y,
                forall|j: int|
                    0 <= j < y ==> (#[trigger] pixels@[j])@.len() == width && forall|i: int|
                        0 <= i < width ==> (#[trigger] pixels@[j]@[i])@ == (0u8, 0u8, 0u8),
            decreases height - y,
        {
            let mut row: Vec<Pixel> = Vec::new();
            let mut x: usize = 0;
            while x < width
                invariant
                    x <= width,
                    row@.len() == x,
                    forall|i: int| 0 <= i < x ==> (#[trigger] row@[i])@ == (0u8, 0u8, 0u8),
                decreases width - x,
            {
                row.push(Pixel::default());
                x = x + 1;
            }
            pixels.push(row);
            y = y + 1;
        }
        let array = LedRectangularArray { width, height, pixels };
        assert forall|x: int, y: int| 0 <= x < width && 0 <= y < height implies (
        #[trigger] array.pixel_at(x, y))@ == (0u8, 0u8, 0u8) by {
            assert(array.rows()[y] == array.pixels@[y]@);
        }
        assert forall|y: int| 0 <= y < array.height implies (#[trigger] array.rows()[y]).len()
            == array.width by {
            assert(array.rows()[y] == array.pixels@[y]@);
        }
        array
    }

    /// Replaces the pixel at column `x` of row `y`.
    pub fn set_pixel(&mut self, x: usize, y: usize, pixel: Pixel)
        requires
            old(self).wf(),
            x < old(self)@.width,
            y < old(self)@.height,
        ensures
            final(self).wf(),
            final(self)@.width == old(self)@.width,
            final(self)@.height == old(self)@.height,
            final(self).rows() == old(self).rows().update(
                y as int,
                old(self).rows()[y as int].update(x as int, pixel),
            ),
            final(self).pixel_at(x as int, y as int) == pixel,
    {
        let ghost before = self.rows();
        assert(self.pixels@[y as int]@ == before[y as int]);
        self.pixels[y][x] = pixel;
        assert(self.rows() =~= before.update(y as int, before[y as int].update(x as int, pixel)))
            by {
            assert forall|j: int| 0 <= j < self.rows().len() implies #[trigger] self.rows()[j]
                == before.update(y as int, before[y as int].update(x as int, pixel))[j] by {
                if j == y {
                    assert(self.rows()[j] =~= before[y as int].update(x as int, pixel));
                }
            }
        }
    }
}

impl LedArray for LedRectangularArray {
    open spec fn display_order(&self) -> Seq<Pixel> {
        chain_prefix(self.rows(), self.rows().len())
    }

    fn ordered_iter(&self) -> (pixels: Vec<Pixel>) {
        let height: usize = self.pixels.len();
        let ghost rows = self.rows();
        let mut out: Vec<Pixel> = Vec::new();
        let mut i: usize = 0;
        while i < height
            invariant
                height == self.pixels@.len(),
                rows == self.rows(),
                i <= height,
                out@ == chain_prefix(rows, i as nat),
            decreases height - i,
        {
            let row = &self.pixels[height - 1 - i];
            assert(row@ == rows[rows.len() - (i + 1)]);
            let width: usize = row.len();
            let ghost start = out@;
            let mut j: usize = 0;
            while j < width
                invariant
                    width == row@.len(),
                    j <= width,
                    out@ == start + oriented_row(row@, i as int).take(j as int),
                decreases width - j,
            {
                let p = if i % 2 == 0 {
                    row[j]
                } else {
                    row[width - 1 - j]
                };
                assert(oriented_row(row@, i as int).take(j as int + 1) =~= oriented_row(
                    row@,
                    i as int,
                ).take(j as int).push(p));
                out.push(p);
                j = j + 1;
            }
            assert(oriented_row(row@, i as int).take(width as int) =~= oriented_row(row@, i as int));
            i = i + 1;
        }
        out
    }
}

/// Every chain position reads the pixel of the grid cell that `chain_row` and
/// `chain_column` assign to it, for the first `n` rows of a grid whose rows
/// all have `width` pixels.
proof fn lemma_chain_prefix_pointwise(rows: Seq<Seq<Pixel>>, width: int, n: nat)
    requires
        width >= 0,
        n <= rows.len(),
        forall|y: int| 0 <= y < rows.len() ==> (#[trigger] rows[y]).len() == width,
    ensures
        chain_prefix(rows, n).len() == n * width,
        forall|k: int|
            0 <= k < n * width ==> #[trigger] chain_prefix(rows, n)[k] == rows[chain_row(
                width,
                rows.len() as int,
                k,
            )][chain_column(width, k)],
    decreases n,
{
    if n == 0 {
        assert(n * width == 0);
    } else {
        let m: nat = (n - 1) as nat;
        lemma_chain_prefix_pointwise(rows, width, m);
        let row = rows[rows.len() - n];
        assert(row.len() == width);
        assert(oriented_row(row, m as int).len() == width);
        assert(m * width + width == n * width) by (nonlinear_arith)
            requires
                m == n - 1,
        ;
        let prefix = chain_prefix(rows, n);
        assert forall|k: int| 0 <= k < n * width implies #[trigger] prefix[k] == rows[chain_row(
            width,
            rows.len() as int,
            k,
        )][chain_column(width, k)] by {
            if k >= m * width {
                let r: int = k - m * width;
                lemma_fundamental_div_mod_converse(k, width, m as int, r);
                assert(prefix[k] == oriented_row(row, m as int)[r]);
                assert(rows.len() - n == chain_row(width, rows.len() as int, k));
            } else {
                assert(prefix[k] == chain_prefix(rows, m)[k]);
            }
        }
    }
}

/// The grid cell of a chain position, and back: `chain_position` and the pair
/// (`chain_column`, `chain_row`) are inverse maps between the cells of a
/// `width` x `height` grid and the positions `0 .. width * height`.
pub proof fn lemma_chain_position_inverse(width: int, height: int, x: int, y: int)
    requires
        0 <= x < width,
        0 <= y < height,
    ensures
        0 <= chain_position(width, height, x, y) < width * height,
        chain_row(width, height, chain_position(width, height, x, y)) == y,
        chain_column(width, chain_position(width, height, x, y)) == x,
{
    let from_bottom: int = height - 1 - y;
    let offset: int = if from_bottom % 2 == 0 {
        x
    } else {
        width - 1 - x
    };
    let p: int = chain_position(width, height, x, y);
    assert(p == from_bottom * width + offset);
    lemma_fundamental_div_mod_converse(p, width, from_bottom, offset);
    assert(from_bottom * width + offset < width * height) by (nonlinear_arith)
        requires
            0 <= from_bottom < height,
            0 <= offset < width,
    ;
    assert(0 <= from_bottom * width) by (nonlinear_arith)
        requires
            0 <= from_bottom,
            0 <= width,
    ;
}

/// Every position of the chain belongs to exactly one grid cell: the cell that
/// `chain_column` and `chain_row` name lies in the grid, and its chain
/// position is the position itself.
pub proof fn lemma_chain_index_inverse(width: int, height: int, k: int)
    requires
        0 <= width,
        0 <= height,
        0 <= k < width * height,
    ensures
        0 <= chain_column(width, k) < width,
        0 <= chain_row(width, height, k) < height,
        chain_position(width, height, chain_column(width, k), chain_row(width, height, k)) == k,
{
    assert(width > 0) by (nonlinear_arith)
        requires
            0 <= k < width * height,
            0 <= height,
    ;
    let q: int = k / width;
    let r: int = k % width;
    assert(k == q * width + r && 0 <= r < width) by (nonlinear_arith)
        requires
            width > 0,
            q == k / width,
            r == k % width,
    ;
    assert(0 <= q < height) by (nonlinear_arith)
        requires
            k == q * width + r,
            0 <= r < width,
            0 <= k < width * height,
            width > 0,
    ;
}

/// Consecutive LEDs of the chain sit in neighbouring cells of the grid: they
/// share a row and lie in adjacent columns, or share a column and lie in
/// adjacent rows.
pub proof fn lemma_chain_neighbours(width: int, height: int, k: int)
    requires
        0 <= width,
        0 <= height,
        0 <= k,
        k + 1 < width * height,
    ensures
        ({
            let dr: int = chain_row(width, height, k) - chain_row(width, height, k + 1);
            let dc: int = chain_column(width, k) - chain_column(width, k + 1);
            ||| dr == 0 && (dc == 1 || dc == -1)
            ||| dc == 0 && (dr == 1 || dr == -1)
        }),
{
    lemma_chain_index_inverse(width, height, k);
    let q: int = k / width;
    let r: int = k % width;
    lemma_fundamental_div_mod_converse(k, width, q, r);
    if r + 1 < width {
        lemma_fundamental_div_mod_converse(k + 1, width, q, r + 1);
    } else {
        assert(k + 1 == (q + 1) * width + 0) by (nonlinear_arith)
            requires
                k == q * width + r,
                r + 1 == width,
        ;
        lemma_fundamental_div_mod_converse(k + 1, width, q + 1, 0);
    }
}

impl LedRectangularArray {
    /// The display order lists every pixel of the grid once, position `k`
    /// holding the pixel of column `chain_column(k)` in row `chain_row(k)`.
    pub proof fn lemma_display_order_pointwise(&self)
        requires
            self.wf(),
        ensures
            self.display_order().len() == self@.width * self@.height,
            forall|k: int|
                0 <= k < self@.width * self@.height ==> #[trigger] self.display_order()[k]
                    == self.pixel_at(
                    chain_column(self@.width as int, k),
                    chain_row(self@.width as int, self@.height as int, k),
                ),
    {
        lemma_chain_prefix_pointwise(self.rows(), self@.width as int, self.rows().len());
        assert(self@.height * self@.width == self@.width * self@.height) by (nonlinear_arith);
    }

    /// The pixel at column `x` of row `y` is shown at chain position
    /// `chain_position(width, height, x, y)`.
    pub proof fn lemma_pixel_display_position(&self, x: int, y: int)
        requires
            self.wf(),
            0 <= x < self@.width,
            0 <= y < self@.height,
        ensures
            self.display_order()[chain_position(self@.width as int, self@.height as int, x, y)]
                == self.pixel_at(x, y),
    {
        self.lemma_display_order_pointwise();
        lemma_chain_position_inverse(self@.width as int, self@.height as int, x, y);
    }

    /// Setting the pixel at column `x` of row `y` changes what the display shows at
    /// exactly one chain position, `chain_position(width, height, x, y)`, and shows
    /// the new pixel there.
    pub proof fn law_set_pixel_display(before: Self, after: Self, x: int, y: int, pixel: Pixel)
        requires
            before.wf(),
            0 <= x < before@.width,
            0 <= y < before@.height,
            after.wf(),
            after@.width == before@.width,
            after@.height == before@.height,
            after.rows() == before.rows().update(y, before.rows()[y].update(x, pixel)),
        ensures
            after.display_order().len() == before.display_order().len(),
            after.display_order()[chain_position(before@.width as int, before@.height as int, x, y)]
                == pixel,
            forall|k: int|
                0 <= k < before.display_order().len() && k != chain_position(
                    before@.width as int,
                    before@.height as int,
                    x,
                    y,
                ) ==> #[trigger] after.display_order()[k] == before.display_order()[k],
    {
        let w: int = before@.width as int;
        let h: int = before@.height as int;
        before.lemma_display_order_pointwise();
        after.lemma_display_order_pointwise();
        after.lemma_pixel_display_position(x, y);
        assert forall|k: int|
            0 <= k < before.display_order().len() && k != chain_position(w, h, x, y) implies #[trigger] after.display_order()[k]
            == before.display_order()[k] by {
            lemma_chain_index_inverse(w, h, k);
            let c: int = chain_column(w, k);
            let r: int = chain_row(w, h, k);
            assert(c != x || r != y);
        }
    }
}

} // verus!
