//! A rectangular grid of pixel values, addressed by column `x` and row `y`.

use vstd::prelude::*;

verus! {

/// A `width` by `height` grid of pixels, stored row by row.
///
/// The pixel type is left open: a renderer keeps its own color type here and
/// turns the grid into 8-bit channels when the image is written out.
pub struct Canvas<C> {
    width: usize,
    height: usize,
    pixels: Vec<Vec<C>>,
}

/// A `width` by `height` grid in which every pixel is `fill`.
pub open spec fn filled_grid<C>(width: nat, height: nat, fill: C) -> Seq<Seq<C>> {
    Seq::new(height, |y: int| Seq::new(width, |x: int| fill))
}

/// The grid `g` with the pixel at column `x` of row `y` replaced by `c`.
pub open spec fn grid_with<C>(g: Seq<Seq<C>>, x: int, y: int, c: C) -> Seq<Seq<C>> {
    g.update(y, g[y].update(x, c))
}

/// A fresh canvas holds its fill value at every pixel.
pub proof fn lemma_fresh_canvas_is_filled<C>(width: nat, height: nat, fill: C)
    ensures
        filled_grid(width, height, fill).len() == height,
        forall|x: int, y: int|
            0 <= y < height && 0 <= x < width ==> #[trigger] filled_grid(width, height, fill)[y][x]
                == fill,
{
}

/// Reading a pixel right after writing it gives the written value back, and
/// the write leaves the size and every other pixel as they were.
pub proof fn lemma_read_after_write<C: Copy>(canvas: Canvas<C>, x: int, y: int, color: C)
    requires
        canvas.wf(),
        0 <= x < canvas.spec_width(),
        0 <= y < canvas.spec_height(),
    ensures
        grid_with(canvas@, x, y, color).len() == canvas@.len(),
        grid_with(canvas@, x, y, color)[y][x] == color,
        forall|j: int|
            0 <= j < canvas.spec_height() ==> (#[trigger] grid_with(canvas@, x, y, color)[j]).len()
                == canvas.spec_width(),
        forall|i: int, j: int|
            0 <= j < canvas.spec_height() && 0 <= i < canvas.spec_width() && (i != x || j != y)
                ==> #[trigger] grid_with(canvas@, x, y, color)[j][i] == canvas@[j][i],
{
}

impl<C> View for Canvas<C> {
    type V = Seq<Seq<C>>;

    /// The rows of the canvas, top to bottom, each one left to right.
    closed spec fn view(&self) -> Seq<Seq<C>> {
        self.pixels@.map_values(|row: Vec<C>| row@)
    }
}

impl<C: Copy> Canvas<C> {
    /// The number of columns.
    pub closed spec fn spec_width(&self) -> nat {
        self.width as nat
    }

    /// The number of rows.
    pub closed spec fn spec_height(&self) -> nat {
        self.height as nat
    }

    /// The grid has `height` rows of `width` pixels each.
    pub open spec fn wf(&self) -> bool {
        &&& self@.len() == self.spec_height()
        &&& forall|y: int| 0 <= y < self@.len() ==> (#[trigger] self@[y]).len() == self.spec_width()
    }

    /// A `width` by `height` canvas with `fill` at every pixel.
    pub fn new(width: usize, height: usize, fill: C) -> (r: Self)
        ensures
            r.wf(),
            r.spec_width() == width,
            r.spec_height() == height,
            r@ == filled_grid(width as nat, height as nat, fill),
    {
        let mut pixels: Vec<Vec<C>> = Vec::new();
        let mut y: usize = 0;
        while y < height
            invariant
                y <= height,
                pixels@.len() == y,
                forall|j: int| 0 <= j < y ==> (#[trigger] pixels@[j])@ == Seq::new(width as nat, |x: int| fill),
            decreases height - y,
        {
            let mut row: Vec<C> = Vec::new();
            let mut x: usize = 0;
            while x < width
                invariant
                    x <= width,
                    row@ == Seq::new(x as nat, |i: int| fill),
                decreases width - x,
            {
                row.push(fill);
                x = x + 1;
                assert(row@ =~= Seq::new(x as nat, |i: int| fill));
            }
            pixels.push(row);
            y = y + 1;
        }
        let r = Canvas { width, height, pixels };
        assert(r@ =~= filled_grid(width as nat, height as nat, fill));
        r
    }

    /// The number of columns.
    pub fn width(&self) -> (r: usize)
        ensures
            r == self.spec_width(),
    {
        self.width
    }

    /// The number of rows.
    pub fn height(&self) -> (r: usize)
        ensures
            r == self.spec_height(),
    {
        self.height
    }

    /// The pixel at column `x` of row `y`.
    pub fn pixel_at(&self, x: usize, y: usize) -> (r: C)
        requires
            self.wf(),
            x < self.spec_width(),
            y < self.spec_height(),
        ensures
            r == self@[y as int][x as int],
    {
        assert(self.pixels@[y as int]@ == self@[y as int]);
        self.pixels[y][x]
    }

    /// The canvas with the pixel at column `x` of row `y` set to `color`;
    /// every other pixel is kept.
    pub fn write_pixel(self, x: usize, y: usize, color: C) -> (r: Self)
        requires
            self.wf(),
            x < self.spec_width(),
            y < self.spec_height(),
        ensures
            r.wf(),
            r.spec_width() == self.spec_width(),
            r.spec_height() == self.spec_height(),
            r@ == grid_with(self@, x as int, y as int, color),
    {
        let mut pixels = self.pixels;
        assert(pixels@[y as int]@ == self@[y as int]);
        pixels[y][x] = color;
        let r = Canvas { width: self.width, height: self.height, pixels };
        assert(r@ =~= grid_with(self@, x as int, y as int, color));
        r
    }

    /// The canvas of the same size whose every pixel is `f` of the pixel at
    /// the same place here.
    pub fn map<D: Copy, F: Fn(C) -> D>(&self, f: F) -> (r: Canvas<D>)
        requires
            self.wf(),
            forall|x: int, y: int|
                0 <= y < self.spec_height() && 0 <= x < self.spec_width() ==> call_requires(
                    f,
                    (#[trigger] self@[y][x],),
                ),
        ensures
            r.wf(),
            r.spec_width() == self.spec_width(),
            r.spec_height() == self.spec_height(),
            forall|x: int, y: int|
                0 <= y < self.spec_height() && 0 <= x < self.spec_width() ==> call_ensures(
                    f,
                    (self@[y][x],),
                    #[trigger] r@[y][x],
                ),
    {
        let mut pixels: Vec<Vec<D>> = Vec::new();
        let mut y: usize = 0;
        while y < self.height
            invariant
                self.wf(),
                y <= self.height,
                pixels@.len() == y,
                forall|x: int, j: int|
                    0 <= j < self.spec_height() && 0 <= x < self.spec_width() ==> call_requires(
                        f,
                        (#[trigger] self@[j][x],),
                    ),
                forall|j: int| 0 <= j < y ==> (#[trigger] pixels@[j])@.len() == self.width,
                forall|x: int, j: int|
                    0 <= j < y && 0 <= x < self.width ==> call_ensures(
                        f,
                        (self@[j][x],),
                        #[trigger] pixels@[j]@[x],
                    ),
            decreases self.height - y,
        {
            let src = &self.pixels[y];
            assert(src@ == self@[y as int]);
            let mut row: Vec<D> = Vec::new();
            let mut x: usize = 0;
            while x < self.width
                invariant
                    self.wf(),
                    y < self.height,
                    src@ == self@[y as int],
                    x <= self.width,
                    row@.len() == x,
                    forall|i: int, j: int|
                        0 <= j < self.spec_height() && 0 <= i < self.spec_width() ==> call_requires(
                            f,
                            (#[trigger] self@[j][i],),
                        ),
                    forall|i: int|
                        0 <= i < x ==> call_ensures(f, (self@[y as int][i],), #[trigger] row@[i]),
                decreases self.width - x,
            {
                row.push(f(src[x]));
                x = x + 1;
            }
            pixels.push(row);
            y = y + 1;
        }
        let r = Canvas { width: self.width, height: self.height, pixels };
        assert forall|x: int, y: int|
            0 <= y < self.spec_height() && 0 <= x < self.spec_width() implies call_ensures(
                f,
                (self@[y][x],),
                #[trigger] r@[y][x],
            ) by {
            assert(r@[y] == pixels@[y]@);
        }
        r
    }
}

} // verus!
