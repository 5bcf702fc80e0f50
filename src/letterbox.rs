use vstd::prelude::*;

verus! {

/// `n / d` rounded to the nearest integer, halves rounded up (for `n >= 0`, `d > 0`).
pub open spec fn round_div(n: int, d: int) -> int {
    (2 * n + d) / (2 * d)
}

/// Splits a non-negative delta into two shares, the first never the larger.
pub open spec fn split_spec(delta: nat) -> (nat, nat) {
    (delta / 2, (delta - delta / 2) as nat)
}

/// True when the source is relatively wider than the target: `w / h > tw / th`.
pub open spec fn wider_than_target(w: nat, h: nat, tw: nat, th: nat) -> bool {
    w * th > tw * h
}

/// Size of the source after a uniform scale that makes it fit the target.
pub open spec fn scaled_size(w: nat, h: nat, tw: nat, th: nat) -> (nat, nat) {
    if wider_than_target(w, h, tw, th) {
        (tw, round_div((tw * h) as int, w as int) as nat)
    } else {
        (round_div((th * w) as int, h as int) as nat, th)
    }
}

/// Padding added on each side of the scaled source.
#[derive(Clone, Copy, Debug, PartialEq, Eq, Structural)]
pub struct Padding {
    pub top: u32,
    pub bottom: u32,
    pub left: u32,
    pub right: u32,
}

/// Geometry of a letterbox: the target size, the scaled source size and the
/// padding that centers the scaled source inside the target.
#[derive(Clone, Copy, Debug, PartialEq, Eq, Structural)]
pub struct Letterbox {
    pub target_w: u32,
    pub target_h: u32,
    pub scaled_w: u32,
    pub scaled_h: u32,
    pub padding: Padding,
}

#[derive(Clone, Copy, Debug, PartialEq, Eq, Structural)]
pub enum LetterboxError {
    /// The source frame has a zero width or height.
    EmptySource,
}

impl Letterbox {
    /// The scaled source plus the padding fills the target exactly, and the
    /// padding of each axis is split with the smaller share first.
    pub open spec fn wf(&self) -> bool {
        &&& self.scaled_w <= self.target_w
        &&& self.scaled_h <= self.target_h
        &&& self.padding.left as nat == split_spec((self.target_w - self.scaled_w) as nat).0
        &&& self.padding.right as nat == split_spec((self.target_w - self.scaled_w) as nat).1
        &&& self.padding.top as nat == split_spec((self.target_h - self.scaled_h) as nat).0
        &&& self.padding.bottom as nat == split_spec((self.target_h - self.scaled_h) as nat).1
    }

    /// The letterbox of a `w` x `h` source inside a `tw` x `th` target.
    pub open spec fn is_letterbox_of(&self, w: nat, h: nat, tw: nat, th: nat) -> bool {
        &&& self.wf()
        &&& self.target_w == tw
        &&& self.target_h == th
        &&& self.scaled_w as nat == scaled_size(w, h, tw, th).0
        &&& self.scaled_h as nat == scaled_size(w, h, tw, th).1
    }
}

/// Splits `delta` pixels of padding between the two sides of one axis.
/// The first share is `floor(delta / 2)`, the second takes the rest.
pub fn split_padding(delta: u32) -> (r: (u32, u32))
    ensures
        r.0 as nat == split_spec(delta as nat).0,
        r.1 as nat == split_spec(delta as nat).1,
        r.0 + r.1 == delta,
        r.0 <= r.1 <= r.0 + 1,
{
    let first: u32 = delta / 2;
    (first, delta - first)
}

proof fn lemma_round_div_fits(n: int, d: int, bound: int)
    requires
        0 <= n,
        0 < d,
        0 <= bound,
        n < d * bound,
    ensures
        0 <= round_div(n, d) <= bound,
{
    assert(2 * n + d < 2 * d * (bound + 1)) by (nonlinear_arith)
        requires
            n < d * bound,
            0 < d,
    ;
    assert(0 <= (2 * n + d) / (2 * d) < bound + 1) by (nonlinear_arith)
        requires
            2 * n + d < 2 * d * (bound + 1),
            0 <= n,
            0 < d,
    ;
}

proof fn lemma_round_div_fits_le(n: int, d: int, bound: int)
    requires
        0 <= n,
        0 < d,
        0 <= bound,
        n <= d * bound,
    ensures
        0 <= round_div(n, d) <= bound,
{
    assert(2 * n + d < 2 * d * (bound + 1)) by (nonlinear_arith)
        requires
            n <= d * bound,
            0 < d,
    ;
    assert(0 <= (2 * n + d) / (2 * d) < bound + 1) by (nonlinear_arith)
        requires
            2 * n + d < 2 * d * (bound + 1),
            0 <= n,
            0 < d,
    ;
}

/// `round(n / d)` on machine integers.
fn round_div_exec(n: u128, d: u128) -> (r: u128)
    requires
        0 < d,
        n < 0x1_0000_0000_0000_0000,
        d < 0x1_0000_0000,
    ensures
        r == round_div(n as int, d as int),
{
    (2 * n + d) / (2 * d)
}

/// Computes the letterbox of a `src_w` x `src_h` frame inside a
/// `target_w` x `target_h` frame: the source is scaled uniformly until it
/// fits, then centered with padding on the shorter dimension.
///
/// The result always fills the target exactly, never shrinks both sides
/// below the target, and fails only on a source with no pixels.
pub fn letterbox(src_w: u32, src_h: u32, target_w: u32, target_h: u32) -> (r: Result<
    Letterbox,
    LetterboxError,
>)
    ensures
        r is Err <==> (src_w == 0 || src_h == 0),
        r is Err ==> r == Err::<Letterbox, LetterboxError>(LetterboxError::EmptySource),
        r matches Ok(lb) ==> {
            &&& lb.is_letterbox_of(src_w as nat, src_h as nat, target_w as nat, target_h as nat)
            &&& lb.scaled_w <= target_w
            &&& lb.scaled_h <= target_h
            &&& (lb.scaled_w == target_w || lb.scaled_h == target_h)
            &&& lb.scaled_w + lb.padding.left + lb.padding.right == target_w
            &&& lb.scaled_h + lb.padding.top + lb.padding.bottom == target_h
            &&& lb.padding.left <= lb.padding.right <= lb.padding.left + 1
            &&& lb.padding.top <= lb.padding.bottom <= lb.padding.top + 1
        },
{
    if src_w == 0 || src_h == 0 {
        return Err(LetterboxError::EmptySource);
    }
    let w = src_w as u128;
    let h = src_h as u128;
    let tw = target_w as u128;
    let th = target_h as u128;
    assert(w * th < 0x1_0000_0000_0000_0000 && tw * h < 0x1_0000_0000_0000_0000) by (nonlinear_arith)
        requires
            w < 0x1_0000_0000,
            h < 0x1_0000_0000,
            tw < 0x1_0000_0000,
            th < 0x1_0000_0000,
    ;
    let scaled_w: u32;
    let scaled_h: u32;
    if w * th > tw * h {
        let sh = round_div_exec(tw * h, w);
        proof {
            lemma_round_div_fits((tw * h) as int, w as int, th as int);
        }
        scaled_w = target_w;
        scaled_h = sh as u32;
    } else {
        let sw = round_div_exec(th * w, h);
        proof {
            lemma_round_div_fits_le((th * w) as int, h as int, tw as int);
        }
        scaled_w = sw as u32;
        scaled_h = target_h;
    }
    let (left, right) = split_padding(target_w - scaled_w);
    let (top, bottom) = split_padding(target_h - scaled_h);
    Ok(
        Letterbox {
            target_w,
            target_h,
            scaled_w,
            scaled_h,
            padding: Padding { top, bottom, left, right },
        },
    )
}

} // verus!
