use vstd::prelude::*;

use crate::letterbox::Letterbox;

verus! {

/// One pixel: three 8-bit channel intensities, in blue, green, red order.
#[derive(Clone, Copy, Debug, PartialEq, Eq, Structural)]
pub struct Pixel {
    pub b: u8,
    pub g: u8,
    pub r: u8,
}

pub open spec fn black_spec() -> Pixel {
    Pixel { b: 0, g: 0, r: 0 }
}

/// The zero-valued pixel used for padding.
pub fn black() -> (r: Pixel)
    ensures
        r == black_spec(),
{
    Pixel { b: 0, g: 0, r: 0 }
}

/// A dense grid of pixels, stored row by row.
#[derive(Clone, Debug)]
pub struct Frame {
    pub width: u32,
    pub height: u32,
    pub rows: Vec<Vec<Pixel>>,
}

impl Frame {
    /// `height` rows of `width` pixels each.
    pub open spec fn wf(&self) -> bool {
        &&& self.rows@.len() == self.height
        &&& forall|i: int| 0 <= i < self.rows@.len() ==> #[trigger] self.rows@[i]@.len() == self.width
    }

    pub open spec fn pixel(&self, row: int, col: int) -> Pixel {
        self.rows@[row]@[col]
    }

    /// A `width` x `height` frame whose every pixel is `fill`.
    pub fn filled(width: u32, height: u32, fill: Pixel) -> (r: Frame)
        ensures
            r.wf(),
            r.width == width,
            r.height == height,
            forall|row: int, col: int|
                0 <= row < height && 0 <= col < width ==> #[trigger] r.pixel(row, col) == fill,
    {
        let mut rows: Vec<Vec<Pixel>> = Vec::new();
        let mut i: u32 = 0;
        while i < height
            invariant
                i <= height,
                rows@.len() == i,
                forall|a: int| 0 <= a < i ==> #[trigger] rows@[a]@.len() == width,
                forall|a: int, c: int| 0 <= a < i && 0 <= c < width ==> #[trigger] rows@[a]@[c] == fill,
            decreases height - i,
        {
            let mut row: Vec<Pixel> = Vec::new();
            let mut j: u32 = 0;
            while j < width
                invariant
                    j <= width,
                    row@.len() == j,
                    forall|c: int| 0 <= c < j ==> #[trigger] row@[c] == fill,
                decreases width - j,
            {
                row.push(fill);
                j = j + 1;
            }
            rows.push(row);
            i = i + 1;
        }
        Frame { width, height, rows }
    }

    /// The rows of pixels as sequences.
    pub open spec fn grid(&self) -> Seq<Seq<Pixel>> {
        self.rows@.map_values(|v: Vec<Pixel>| v@)
    }

    /// The frame as one buffer of channel bytes, row after row and pixel
    /// after pixel, as a model input expects it: `width * height * 3` bytes.
    pub fn to_bytes(&self) -> (r: Vec<u8>)
        requires
            self.wf(),
        ensures
            r@ == grid_bytes(self.grid()),
            r@.len() == self.width * self.height * 3,
    {
        let ghost g = self.grid();
        let mut out: Vec<u8> = Vec::new();
        let mut i: usize = 0;
        while i < self.rows.len()
            invariant
                g == self.grid(),
                g.len() == self.rows@.len(),
                i <= self.rows@.len(),
                out@ == grid_bytes(g.take(i as int)),
            decreases self.rows@.len() - i,
        {
            let row = &self.rows[i];
            assert(g[i as int] == row@);
            let mut j: usize = 0;
            while j < row.len()
                invariant
                    g == self.grid(),
                    g.len() == self.rows@.len(),
                    i < self.rows@.len(),
                    g[i as int] == row@,
                    j <= row@.len(),
                    out@ == grid_bytes(g.take(i as int)) + row_bytes(row@.take(j as int)),
                decreases row@.len() - j,
            {
                let p = row[j];
                proof {
                    assert(row@.take(j + 1).drop_last() =~= row@.take(j as int));
                }
                out.push(p.b);
                out.push(p.g);
                out.push(p.r);
                j = j + 1;
            }
            proof {
                assert(row@.take(j as int) =~= row@);
                assert(g.take(i + 1).drop_last() =~= g.take(i as int));
            }
            i = i + 1;
        }
        proof {
            assert(g.take(i as int) =~= g);
            lemma_grid_bytes_len(g, self.width as nat);
        }
        out
    }
}

/// The channel bytes of one pixel, in storage order.
pub open spec fn pixel_bytes(p: Pixel) -> Seq<u8> {
    seq![p.b, p.g, p.r]
}

/// The bytes of a row of pixels, pixel after pixel.
pub open spec fn row_bytes(row: Seq<Pixel>) -> Seq<u8>
    decreases row.len(),
{
    if row.len() == 0 {
        Seq::empty()
    } else {
        row_bytes(row.drop_last()) + pixel_bytes(row.last())
    }
}

/// The bytes of a grid of pixels, row after row.
pub open spec fn grid_bytes(rows: Seq<Seq<Pixel>>) -> Seq<u8>
    decreases rows.len(),
{
    if rows.len() == 0 {
        Seq::empty()
    } else {
        grid_bytes(rows.drop_last()) + row_bytes(rows.last())
    }
}

proof fn lemma_row_bytes_len(row: Seq<Pixel>)
    ensures
        row_bytes(row).len() == 3 * row.len(),
    decreases row.len(),
{
    if row.len() > 0 {
        lemma_row_bytes_len(row.drop_last());
    }
}

proof fn lemma_grid_bytes_len(rows: Seq<Seq<Pixel>>, width: nat)
    requires
        forall|i: int| 0 <= i < rows.len() ==> #[trigger] rows[i].len() == width,
    ensures
        grid_bytes(rows).len() == rows.len() * width * 3,
    decreases rows.len(),
{
    if rows.len() > 0 {
        let prefix = rows.drop_last();
        assert forall|i: int| 0 <= i < prefix.len() implies #[trigger] prefix[i].len() == width by {
            assert(prefix[i] == rows[i]);
        }
        lemma_grid_bytes_len(prefix, width);
        lemma_row_bytes_len(rows.last());
        assert((prefix.len() * width * 3) + 3 * width == rows.len() * width * 3) by (nonlinear_arith)
            requires
                prefix.len() + 1 == rows.len(),
        ;
    }
}

/// The pixel at (`row`, `col`) of the target frame when `src`, of the scaled
/// size of `lb`, is placed inside the target with the padding of `lb`.
pub open spec fn padded_pixel(src: Seq<Seq<Pixel>>, lb: Letterbox, row: int, col: int) -> Pixel {
    let top = lb.padding.top as int;
    let left = lb.padding.left as int;
    if top <= row < top + lb.scaled_h && left <= col < left + lb.scaled_w {
        src[row - top][col - left]
    } else {
        black_spec()
    }
}

/// Places the already scaled frame `scaled` in the middle of a frame of the
/// target size of `lb`, filling the padding with black pixels.
pub fn pad_scaled(scaled: &Frame, lb: &Letterbox) -> (r: Frame)
    requires
        scaled.wf(),
        lb.wf(),
        scaled.width == lb.scaled_w,
        scaled.height == lb.scaled_h,
    ensures
        r.wf(),
        r.width == lb.target_w,
        r.height == lb.target_h,
        forall|row: int, col: int|
            0 <= row < lb.target_h && 0 <= col < lb.target_w ==> #[trigger] r.pixel(row, col)
                == padded_pixel(scaled.grid(), *lb, row, col),
{
    let ghost src = scaled.grid();
    let top = lb.padding.top;
    let left = lb.padding.left;
    let mut rows: Vec<Vec<Pixel>> = Vec::new();
    let mut i: u32 = 0;
    while i < lb.target_h
        invariant
            scaled.wf(),
            lb.wf(),
            scaled.width == lb.scaled_w,
            scaled.height == lb.scaled_h,
            top == lb.padding.top,
            left == lb.padding.left,
            src == scaled.grid(),
            i <= lb.target_h,
            rows@.len() == i,
            forall|a: int| 0 <= a < i ==> #[trigger] rows@[a]@.len() == lb.target_w,
            forall|a: int, c: int|
                0 <= a < i && 0 <= c < lb.target_w ==> #[trigger] rows@[a]@[c] == padded_pixel(
                    src,
                    *lb,
                    a,
                    c,
                ),
        decreases lb.target_h - i,
    {
        let in_band = i >= top && i - top < lb.scaled_h;
        let mut row: Vec<Pixel> = Vec::new();
        let mut j: u32 = 0;
        while j < lb.target_w
            invariant
                scaled.wf(),
                lb.wf(),
                scaled.width == lb.scaled_w,
                scaled.height == lb.scaled_h,
                top == lb.padding.top,
                left == lb.padding.left,
                src == scaled.grid(),
                i < lb.target_h,
                in_band == (top <= i < top + lb.scaled_h),
                j <= lb.target_w,
                row@.len() == j,
                forall|c: int| 0 <= c < j ==> #[trigger] row@[c] == padded_pixel(src, *lb, i as int, c),
            decreases lb.target_w - j,
        {
            let p = if in_band && j >= left && j - left < lb.scaled_w {
                let r = i - top;
                let c = j - left;
                assert(scaled.rows@[r as int]@.len() == scaled.width);
                scaled.rows[r as usize][c as usize]
            } else {
                black()
            };
            row.push(p);
            j = j + 1;
        }
        rows.push(row);
        i = i + 1;
    }
    Frame { width: lb.target_w, height: lb.target_h, rows }
}

} // verus!
