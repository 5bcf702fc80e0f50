use vstd::prelude::*;

use crate::letterbox::round_div;

verus! {

/// Ratios and confidences are fixed-point numbers: `RATIO_SCALE` stands for 1.
pub const RATIO_SCALE: u32 = 1_000_000;

/// The ratio one half, the center of the letterboxed frame on either axis.
pub const RATIO_HALF: u32 = 500_000;

/// A detected joint: row and column ratios relative to the square
/// letterboxed frame, and a confidence score, each in units of `1 / RATIO_SCALE`.
#[derive(Clone, Copy, Debug, PartialEq, Eq, Structural)]
pub struct Keypoint {
    pub y: u32,
    pub x: u32,
    pub score: u32,
}

/// A pixel location in a frame; it may lie outside the frame.
#[derive(Clone, Copy, Debug, PartialEq, Eq, Structural)]
pub struct Point {
    pub x: i64,
    pub y: i64,
}

/// The square scale and the padding that map ratios of the letterboxed frame
/// back onto a frame of a given size.
#[derive(Clone, Copy, Debug, PartialEq, Eq, Structural)]
pub struct Projection {
    pub base: u32,
    pub pad_x: u32,
    pub pad_y: u32,
}

/// `max(w, h)`: the side of the square that the letterbox was taken from.
pub open spec fn base_of(w: nat, h: nat) -> nat {
    if w >= h {
        w
    } else {
        h
    }
}

/// `max(0, h - w) / 2`: the padding left of the frame in a tall frame.
pub open spec fn pad_x_of(w: nat, h: nat) -> nat {
    if h > w {
        ((h - w) as nat) / 2
    } else {
        0
    }
}

/// `max(0, w - h) / 2`: the padding above the frame in a wide frame.
pub open spec fn pad_y_of(w: nat, h: nat) -> nat {
    if w > h {
        ((w - h) as nat) / 2
    } else {
        0
    }
}

/// `round(ratio * base)`, with `ratio` in fixed point.
pub open spec fn denormalize(ratio: nat, base: nat) -> int {
    round_div((ratio * base) as int, RATIO_SCALE as int)
}

/// The pixel of a `w` x `h` frame that keypoint `kp` stands for.
pub open spec fn project_spec(kp: Keypoint, w: nat, h: nat) -> Point {
    Point {
        x: (denormalize(kp.x as nat, base_of(w, h)) - pad_x_of(w, h)) as i64,
        y: (denormalize(kp.y as nat, base_of(w, h)) - pad_y_of(w, h)) as i64,
    }
}

/// A keypoint counts only when its confidence is strictly above the threshold.
pub open spec fn is_valid(kp: Keypoint, threshold: u32) -> bool {
    kp.score > threshold
}

/// The keypoint at the exact center of the letterboxed frame.
pub open spec fn center_keypoint(score: u32) -> Keypoint {
    Keypoint { y: RATIO_HALF, x: RATIO_HALF, score }
}

impl Projection {
    /// The projection is the one of a `w` x `h` frame.
    pub open spec fn is_projection_of(&self, w: nat, h: nat) -> bool {
        &&& self.base as nat == base_of(w, h)
        &&& self.pad_x as nat == pad_x_of(w, h)
        &&& self.pad_y as nat == pad_y_of(w, h)
    }
}

/// Derives the base and padding from the width and height of the frame that
/// keypoints are projected onto.
pub fn projection(width: u32, height: u32) -> (r: Projection)
    ensures
        r.is_projection_of(width as nat, height as nat),
        r.pad_x == 0 || r.pad_y == 0,
{
    if height > width {
        Projection { base: height, pad_x: (height - width) / 2, pad_y: 0 }
    } else {
        Projection { base: width, pad_x: 0, pad_y: (width - height) / 2 }
    }
}

/// `round(ratio * base)` on machine integers.
fn denormalize_exec(ratio: u32, base: u32) -> (r: i64)
    ensures
        r == denormalize(ratio as nat, base as nat),
        0 <= r <= 0x1_0000_0000_0000,
{
    let a = ratio as u128;
    let b = base as u128;
    assert(a * b < 0x1_0000_0000_0000_0000) by (nonlinear_arith)
        requires
            a < 0x1_0000_0000,
            b < 0x1_0000_0000,
    ;
    let n = a * b;
    let d = RATIO_SCALE as u128;
    let q = (2 * n + d) / (2 * d);
    assert(q <= 0x1_0000_0000_0000) by (nonlinear_arith)
        requires
            q == (2 * n + d) / (2 * d),
            n < 0x1_0000_0000_0000_0000,
            d == 1_000_000,
    ;
    q as i64
}

/// Maps keypoint `kp` onto the pixel grid of the frame that `proj` was made for.
pub fn project(proj: &Projection, kp: &Keypoint) -> (r: Point)
    ensures
        r.x == denormalize(kp.x as nat, proj.base as nat) - proj.pad_x,
        r.y == denormalize(kp.y as nat, proj.base as nat) - proj.pad_y,
        forall|w: nat, h: nat| #[trigger]
            proj.is_projection_of(w, h) ==> r == project_spec(*kp, w, h),
{
    let x = denormalize_exec(kp.x, proj.base) - proj.pad_x as i64;
    let y = denormalize_exec(kp.y, proj.base) - proj.pad_y as i64;
    Point { x, y }
}

/// Whether `kp` is confident enough to be drawn: strictly above `threshold`.
pub fn is_confident(kp: &Keypoint, threshold: u32) -> (r: bool)
    ensures
        r == is_valid(*kp, threshold),
{
    kp.score > threshold
}

/// Groups a flat model output, three values per joint in the order row,
/// column, confidence, into keypoints. A trailing partial triple is ignored.
pub fn keypoints_from_raw(raw: &Vec<u32>) -> (r: Vec<Keypoint>)
    ensures
        r@.len() == raw@.len() / 3,
        forall|i: int|
            0 <= i < r@.len() ==> #[trigger] r@[i] == (Keypoint {
                y: raw@[3 * i],
                x: raw@[3 * i + 1],
                score: raw@[3 * i + 2],
            }),
{
    let len = raw.len();
    let n = len / 3;
    let mut r: Vec<Keypoint> = Vec::new();
    let mut i: usize = 0;
    while i < n
        invariant
            len == raw@.len(),
            n == len / 3,
            3 * n <= len,
            i <= n,
            r@.len() == i,
            forall|k: int|
                0 <= k < i ==> #[trigger] r@[k] == (Keypoint {
                    y: raw@[3 * k],
                    x: raw@[3 * k + 1],
                    score: raw@[3 * k + 2],
                }),
        decreases n - i,
    {
        let k: usize = 3 * i;
        r.push(Keypoint { y: raw[k], x: raw[k + 1], score: raw[k + 2] });
        i = i + 1;
    }
    r
}

/// Projecting the center of the letterboxed frame lands on the center of the
/// original frame, within one pixel on each axis: `|2 * x - w| <= 2` and
/// `|2 * y - h| <= 2`.
pub proof fn lemma_center_round_trip(w: u32, h: u32, score: u32)
    ensures
        -2 <= 2 * project_spec(center_keypoint(score), w as nat, h as nat).x - w <= 2,
        -2 <= 2 * project_spec(center_keypoint(score), w as nat, h as nat).y - h <= 2,
{
    let base = base_of(w as nat, h as nat);
    vstd::arithmetic::div_mod::lemma_div_multiples_vanish_quotient(1_000_000, (base + 1) as int, 2);
    assert(denormalize(RATIO_HALF as nat, base) == (base + 1) / 2);
}

/// On a square frame there is no padding, and a keypoint projects to
/// `round(ratio * side)` on each axis.
pub proof fn lemma_square_frame(side: u32, kp: Keypoint)
    ensures
        pad_x_of(side as nat, side as nat) == 0,
        pad_y_of(side as nat, side as nat) == 0,
        project_spec(kp, side as nat, side as nat) == (Point {
            x: denormalize(kp.x as nat, side as nat) as i64,
            y: denormalize(kp.y as nat, side as nat) as i64,
        }),
{
}

} // verus!
