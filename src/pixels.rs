//! Where each pixel of the render goes.
//!
//! The render plane has its origin at the bottom left: row `y` is sampled at
//! height `y / height` of the viewport, so row 0 is the bottom row. Pixels are
//! dispatched to the workers by a running number, from the top row down and
//! each row from left to right. An image file has its origin at the top left,
//! so each row is flipped vertically on its way into the image.
use vstd::prelude::*;
use vstd::arithmetic::div_mod::{lemma_fundamental_div_mod_converse, lemma_multiply_divide_lt};

verus! {

/// Column of the pixel dispatched as number `i`.
pub open spec fn dispatch_x(width: int, i: int) -> int {
    i % width
}

/// Row (from the bottom) of the pixel dispatched as number `i`.
pub open spec fn dispatch_y(width: int, height: int, i: int) -> int {
    height - 1 - i / width
}

/// Number under which the pixel at column `x`, row `y` is dispatched.
pub open spec fn dispatch_number(width: int, height: int, x: int, y: int) -> int {
    (height - 1 - y) * width + x
}

/// Row of the image, counted from the top, that holds the render's row `y`
/// counted from the bottom.
pub open spec fn image_row(height: int, y: int) -> int {
    height - 1 - y
}

/// Number of pixels of a `width` by `height` render.
pub fn pixel_count(width: u32, height: u32) -> (r: u64)
    ensures
        r == width * height,
{
    proof {
        assert(width * height <= u32::MAX * u32::MAX) by (nonlinear_arith);
    }
    (width as u64) * (height as u64)
}

/// Column and row of the pixel dispatched as number `i`.
pub fn dispatch(width: u32, height: u32, i: u64) -> (r: (u32, u32))
    requires
        i < width * height,
    ensures
        r.0 == dispatch_x(width as int, i as int),
        r.1 == dispatch_y(width as int, height as int, i as int),
        r.0 < width,
        r.1 < height,
{
    proof {
        assert(width > 0) by (nonlinear_arith)
            requires i < width * height;
        lemma_multiply_divide_lt(i as int, width as int, height as int);
    }
    let w = width as u64;
    ((i % w) as u32, height - 1 - (i / w) as u32)
}

/// Position in the image, origin at the top left, of the render's pixel at
/// column `x`, row `y` from the bottom.
pub fn image_position(width: u32, height: u32, x: u32, y: u32) -> (r: (u32, u32))
    requires
        x < width,
        y < height,
    ensures
        r.0 == x,
        r.1 == image_row(height as int, y as int),
        r.1 < height,
{
    (x, height - 1 - y)
}

/// Every pixel is dispatched exactly once: each position of the grid has a
/// number below the pixel count, and the numbers and positions correspond one
/// to one.
pub proof fn dispatch_is_one_to_one(width: u32, height: u32)
    ensures
        forall|x: int, y: int|
            0 <= x < width && 0 <= y < height ==> {
                let i = #[trigger] dispatch_number(width as int, height as int, x, y);
                &&& 0 <= i < width * height
                &&& dispatch_x(width as int, i) == x
                &&& dispatch_y(width as int, height as int, i) == y
            },
        forall|i: int|
            0 <= i < width * height ==> {
                let x = dispatch_x(width as int, i);
                let y = #[trigger] dispatch_y(width as int, height as int, i);
                &&& 0 <= x < width
                &&& 0 <= y < height
                &&& dispatch_number(width as int, height as int, x, y) == i
            },
{
    let w = width as int;
    let h = height as int;
    assert forall|x: int, y: int| 0 <= x < w && 0 <= y < h implies {
        let i = #[trigger] dispatch_number(w, h, x, y);
        &&& 0 <= i < w * h
        &&& dispatch_x(w, i) == x
        &&& dispatch_y(w, h, i) == y
    } by {
        let q = h - 1 - y;
        let i = dispatch_number(w, h, x, y);
        assert(0 <= q * w + x < w * h) by (nonlinear_arith)
            requires 0 <= q < h, 0 <= x < w;
        lemma_fundamental_div_mod_converse(i, w, q, x);
    }
    assert forall|i: int| 0 <= i < w * h implies {
        let x = dispatch_x(w, i);
        let y = #[trigger] dispatch_y(w, h, i);
        &&& 0 <= x < w
        &&& 0 <= y < h
        &&& dispatch_number(w, h, x, y) == i
    } by {
        assert(w > 0) by (nonlinear_arith)
            requires 0 <= i < w * h, w >= 0, h >= 0;
        lemma_multiply_divide_lt(i, w, h);
        assert(i == (i / w) * w + i % w && 0 <= i % w < w && i / w >= 0) by (nonlinear_arith)
            requires w > 0, i >= 0;
    }
}

/// Flipping a row twice gives it back: the placement of rows into the image
/// is its own inverse, and so one to one on the rows of the grid.
pub proof fn image_row_is_involution(height: int, y: int)
    requires
        0 <= y < height,
    ensures
        0 <= image_row(height, y) < height,
        image_row(height, image_row(height, y)) == y,
{
}

} // verus!
