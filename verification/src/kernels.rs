use crate::buffer::{cell, lemma_row_before, AccessMode, ClImageBuffer, Rgba8};
use crate::weights::{in_window, spec_side, spec_weight_index, spec_weight_size, MAX_SIGMA};
use vstd::prelude::*;

verus! {

/// The kernels whose result at a coordinate depends on one pixel of the
/// source alone, and is exact over integers.
#[derive(Clone, Copy, Debug, PartialEq, Eq, Structural)]
pub enum PointKernel {
    Grayscale,
    HorizontalFlip,
    VerticalFlip,
}

/// `n / d` rounded to the nearest integer, a tie going to the even one.
pub open spec fn round_half_even(n: int, d: int) -> int
    recommends
        n >= 0,
        d > 0,
{
    let q = n / d;
    let r = n % d;
    if 2 * r < d {
        q
    } else if 2 * r > d {
        q + 1
    } else if q % 2 == 0 {
        q
    } else {
        q + 1
    }
}

/// Ten thousand times the luma of a pixel, by the coefficients 0.2126,
/// 0.7152 and 0.0722 for red, green and blue.
pub open spec fn luma_numerator(p: Rgba8) -> int {
    2126 * p.r + 7152 * p.g + 722 * p.b
}

/// The luma of a pixel on the scale of a channel: at most 255.
pub open spec fn spec_luma(p: Rgba8) -> int {
    round_half_even(luma_numerator(p), 10000)
}

/// The gray pixel of a pixel: its luma on the three color channels, its own
/// alpha.
pub open spec fn spec_gray(p: Rgba8) -> Rgba8 {
    Rgba8 { r: spec_luma(p) as u8, g: spec_luma(p) as u8, b: spec_luma(p) as u8, a: p.a }
}

/// The luma of a pixel is a channel value: nothing is cut off when it is
/// written to a channel.
pub proof fn lemma_luma_in_range(p: Rgba8)
    ensures
        0 <= spec_luma(p) <= 255,
{
}

/// A gray pixel is its own gray pixel: the three coefficients add up to one.
pub proof fn lemma_gray_idempotent(p: Rgba8)
    ensures
        spec_gray(spec_gray(p)) == spec_gray(p),
{
    lemma_luma_in_range(p);
    let g = spec_gray(p);
    assert(luma_numerator(g) == 10000 * g.r);
}

/// What a point kernel writes at `(x, y)` of the destination.
pub open spec fn point_rule(kind: PointKernel, src: &ClImageBuffer, x: int, y: int) -> Rgba8 {
    match kind {
        PointKernel::Grayscale => spec_gray(src.pixel(x, y)),
        PointKernel::HorizontalFlip => src.pixel(src.width() - 1 - x, y),
        PointKernel::VerticalFlip => src.pixel(x, src.height() - 1 - y),
    }
}

/// `dst` is what a point kernel leaves in a destination of the source's
/// dimensions.
pub open spec fn is_point_image(kind: PointKernel, src: &ClImageBuffer, dst: &ClImageBuffer) -> bool {
    &&& dst.wf()
    &&& dst.spec_dimensions() == src.spec_dimensions()
    &&& forall|x: int, y: int|
        src.contains(x, y) ==> #[trigger] dst.pixel(x, y) == point_rule(kind, src, x, y)
}

/// The luma of a pixel, rounded to the nearest channel value, a tie going to
/// the even one.
pub fn luma(p: Rgba8) -> (l: u8)
    ensures
        l == spec_luma(p),
{
    let n: u32 = 2126 * (p.r as u32) + 7152 * (p.g as u32) + 722 * (p.b as u32);
    let q: u32 = n / 10000;
    let r: u32 = n % 10000;
    if 2 * r < 10000 {
        q as u8
    } else if 2 * r > 10000 {
        (q + 1) as u8
    } else if q % 2 == 0 {
        q as u8
    } else {
        (q + 1) as u8
    }
}

/// The gray pixel of a pixel.
pub fn gray(p: Rgba8) -> (g: Rgba8)
    ensures
        g == spec_gray(p),
{
    let l: u8 = luma(p);
    Rgba8 { r: l, g: l, b: l, a: p.a }
}

/// What a point kernel writes at `(x, y)`.
fn eval_point(kind: PointKernel, src: &ClImageBuffer, x: u32, y: u32) -> (p: Rgba8)
    requires
        src.wf(),
        src.contains(x as int, y as int),
    ensures
        p == point_rule(kind, src, x as int, y as int),
{
    let (w, h) = src.dimensions();
    match kind {
        PointKernel::Grayscale => gray(src.get(x, y)),
        PointKernel::HorizontalFlip => src.get(w - 1 - x, y),
        PointKernel::VerticalFlip => src.get(x, h - 1 - y),
    }
}

/// Runs a point kernel over every coordinate of `src`, into a new
/// destination image of the same dimensions.
pub fn apply_point_kernel<'a>(kind: PointKernel, src: &ClImageBuffer<'a>) -> (dst: ClImageBuffer<
    'a,
>)
    requires
        src.wf(),
    ensures
        is_point_image(kind, src, &dst),
        dst.spec_context() == src.spec_context(),
        dst.spec_mode() == AccessMode::Destination,
{
    let (w, h) = src.dimensions();
    let mut out: Vec<Rgba8> = Vec::new();
    let mut y: u32 = 0;
    assert(y * w == 0) by (nonlinear_arith)
        requires
            y == 0,
    ;
    while y < h
        invariant
            src.wf(),
            (w, h) == src.spec_dimensions(),
            y <= h,
            out@.len() == y * w,
            forall|a: int, b: int|
                0 <= a < w && 0 <= b < y ==> #[trigger] cell(out@, w as int, a, b) == point_rule(
                    kind,
                    src,
                    a,
                    b,
                ),
        decreases h - y,
    {
        let mut x: u32 = 0;
        while x < w
            invariant
                src.wf(),
                (w, h) == src.spec_dimensions(),
                y < h,
                x <= w,
                out@.len() == y * w + x,
                forall|a: int, b: int|
                    0 <= a < w && 0 <= b < y ==> #[trigger] cell(out@, w as int, a, b)
                        == point_rule(kind, src, a, b),
                forall|a: int|
                    0 <= a < x ==> #[trigger] cell(out@, w as int, a, y as int) == point_rule(
                        kind,
                        src,
                        a,
                        y as int,
                    ),
            decreases w - x,
        {
            let p = eval_point(kind, src, x, y);
            let ghost before = out@;
            out.push(p);
            proof {
                assert forall|a: int, b: int| 0 <= a < w && 0 <= b < y implies #[trigger] cell(
                    out@,
                    w as int,
                    a,
                    b,
                ) == point_rule(kind, src, a, b) by {
                    lemma_row_before(a, b, w as int, y as int);
                    assert(cell(before, w as int, a, b) == point_rule(kind, src, a, b));
                }
                assert forall|a: int| 0 <= a < x + 1 implies #[trigger] cell(
                    out@,
                    w as int,
                    a,
                    y as int,
                ) == point_rule(kind, src, a, y as int) by {
                    if a < x {
                        assert(cell(before, w as int, a, y as int) == point_rule(
                            kind,
                            src,
                            a,
                            y as int,
                        ));
                    }
                }
            }
            x += 1;
        }
        proof {
            assert(y * w + w == (y + 1) * w) by (nonlinear_arith);
        }
        y += 1;
    }
    proof {
        assert(h * w == w * h) by (nonlinear_arith);
    }
    let dst = ClImageBuffer::assemble(src.context(), w, h, out, AccessMode::Destination);
    proof {
        assert forall|a: int, b: int| src.contains(a, b) implies #[trigger] dst.pixel(a, b)
            == point_rule(kind, src, a, b) by {
            assert(cell(out@, w as int, a, b) == point_rule(kind, src, a, b));
        }
    }
    dst
}

/// The pixel that a kernel finds at `(x, y)`, if the image has that
/// coordinate.
pub open spec fn spec_neighbor(src: &ClImageBuffer, x: int, y: int) -> Option<Rgba8> {
    if src.contains(x, y) {
        Some(src.pixel(x, y))
    } else {
        None
    }
}

/// What the sampler reads at `(x, y)`: the pixel there, and transparent
/// black outside the image.
pub open spec fn spec_sample(src: &ClImageBuffer, x: int, y: int) -> Rgba8 {
    match spec_neighbor(src, x, y) {
        Some(p) => p,
        None => Rgba8 { r: 0, g: 0, b: 0, a: 0 },
    }
}

/// The entry of a flattened window of radius `sigma` for the offset `(i, j)`.
pub open spec fn window_at<T>(window: Seq<T>, i: int, j: int, sigma: int) -> T {
    window[spec_weight_index(i, j, sigma)]
}

/// Every pixel of the image is `c`.
pub open spec fn is_constant(src: &ClImageBuffer, c: Rgba8) -> bool {
    forall|x: int, y: int| src.contains(x, y) ==> #[trigger] src.pixel(x, y) == c
}

/// The pixel at `(x, y)`, if the image has that coordinate.
pub fn neighbor(src: &ClImageBuffer, x: i64, y: i64) -> (p: Option<Rgba8>)
    requires
        src.wf(),
    ensures
        p == spec_neighbor(src, x as int, y as int),
{
    let (w, h) = src.dimensions();
    if 0 <= x && x < w as i64 && 0 <= y && y < h as i64 {
        Some(src.get(x as u32, y as u32))
    } else {
        None
    }
}

/// What the sampler reads at `(x, y)`: the pixel there, and transparent
/// black outside the image.
pub fn sample(src: &ClImageBuffer, x: i64, y: i64) -> (p: Rgba8)
    requires
        src.wf(),
    ensures
        p == spec_sample(src, x as int, y as int),
{
    match neighbor(src, x, y) {
        Some(p) => p,
        None => Rgba8 { r: 0, g: 0, b: 0, a: 0 },
    }
}

/// The neighbours of `(x, y)` in the window of radius `sigma`, flattened as
/// the weight table is: for every offset the pixel it lands on, or nothing
/// where it lands outside the image.
pub fn gather_window(src: &ClImageBuffer, x: u32, y: u32, sigma: i32) -> (window: Vec<
    Option<Rgba8>,
>)
    requires
        src.wf(),
        1 <= sigma <= MAX_SIGMA,
    ensures
        window@.len() == spec_weight_size(sigma as int),
        forall|i: int, j: int|
            in_window(i, j, sigma as int) ==> #[trigger] window_at(window@, i, j, sigma as int)
                == spec_neighbor(src, x + i, y + j),
{
    let ghost side = spec_side(sigma as int);
    let mut window: Vec<Option<Rgba8>> = Vec::new();
    let mut j: i32 = -sigma;
    assert((j + sigma) * side == 0) by (nonlinear_arith)
        requires
            j + sigma == 0,
    ;
    while j <= sigma
        invariant
            src.wf(),
            1 <= sigma <= MAX_SIGMA,
            side == spec_side(sigma as int),
            -sigma <= j <= sigma + 1,
            window@.len() == (j + sigma) * side,
            forall|a: int, b: int|
                -sigma <= a <= sigma && -sigma <= b < j ==> #[trigger] window_at(
                    window@,
                    a,
                    b,
                    sigma as int,
                ) == spec_neighbor(src, x + a, y + b),
        decreases sigma + 1 - j,
    {
        let mut i: i32 = -sigma;
        while i <= sigma
            invariant
                src.wf(),
                1 <= sigma <= MAX_SIGMA,
                side == spec_side(sigma as int),
                -sigma <= j <= sigma,
                -sigma <= i <= sigma + 1,
                window@.len() == (j + sigma) * side + (i + sigma),
                forall|a: int, b: int|
                    -sigma <= a <= sigma && -sigma <= b < j ==> #[trigger] window_at(
                        window@,
                        a,
                        b,
                        sigma as int,
                    ) == spec_neighbor(src, x + a, y + b),
                forall|a: int|
                    -sigma <= a < i ==> #[trigger] window_at(window@, a, j as int, sigma as int)
                        == spec_neighbor(src, x + a, y + j),
            decreases sigma + 1 - i,
        {
            let p = neighbor(src, x as i64 + i as i64, y as i64 + j as i64);
            let ghost before = window@;
            window.push(p);
            proof {
                assert forall|a: int, b: int|
                    -sigma <= a <= sigma && -sigma <= b < j implies #[trigger] window_at(
                    window@,
                    a,
                    b,
                    sigma as int,
                ) == spec_neighbor(src, x + a, y + b) by {
                    lemma_row_before(a + sigma, b + sigma, side, j + sigma);
                    assert(window_at(before, a, b, sigma as int) == spec_neighbor(
                        src,
                        x + a,
                        y + b,
                    ));
                }
                assert forall|a: int| -sigma <= a < i + 1 implies #[trigger] window_at(
                    window@,
                    a,
                    j as int,
                    sigma as int,
                ) == spec_neighbor(src, x + a, y + j) by {
                    if a < i {
                        assert(window_at(before, a, j as int, sigma as int) == spec_neighbor(
                            src,
                            x + a,
                            y + j,
                        ));
                    }
                }
            }
            i += 1;
        }
        proof {
            assert((j + sigma) * side + side == (j + 1 + sigma) * side) by (nonlinear_arith);
        }
        j += 1;
    }
    window
}

/// In an image of one color, every neighbour that a window finds has that
/// color, and the window's centre is found.
pub proof fn lemma_constant_neighbors(src: &ClImageBuffer, c: Rgba8, x: int, y: int, i: int, j: int)
    requires
        is_constant(src, c),
        src.contains(x, y),
    ensures
        spec_neighbor(src, x, y) == Some(c),
        spec_neighbor(src, x + i, y + j) is Some ==> spec_neighbor(src, x + i, y + j) == Some(c),
        spec_sample(src, x + i, y + j) == c || (!src.contains(x + i, y + j) && spec_sample(
            src,
            x + i,
            y + j,
        ) == Rgba8 { r: 0, g: 0, b: 0, a: 0 }),
{
    assert(src.pixel(x, y) == c);
    if src.contains(x + i, y + j) {
        assert(src.pixel(x + i, y + j) == c);
    }
}

/// Two well-formed images of the same dimensions that agree at every
/// coordinate hold the same pixels.
pub proof fn lemma_same_pixels(a: &ClImageBuffer, b: &ClImageBuffer)
    requires
        a.wf(),
        b.wf(),
        a.spec_dimensions() == b.spec_dimensions(),
        forall|x: int, y: int| a.contains(x, y) ==> #[trigger] a.pixel(x, y) == b.pixel(x, y),
    ensures
        a.pixels() == b.pixels(),
{
    let w = a.width();
    let h = a.height();
    assert forall|k: int| 0 <= k < a.pixels().len() implies a.pixels()[k] == b.pixels()[k] by {
        assert(w > 0) by (nonlinear_arith)
            requires
                0 <= k < w * h,
                w >= 0,
        ;
        let x = k % w;
        let y = k / w;
        vstd::arithmetic::div_mod::lemma_fundamental_div_mod(k, w);
        assert(k == w * y + x);
        assert(w * y == y * w) by (nonlinear_arith);
        assert(0 <= y < h) by (nonlinear_arith)
            requires
                0 <= k < w * h,
                k == w * y + x,
                0 <= x < w,
        ;
        assert(a.pixel(x, y) == b.pixel(x, y));
    }
    assert(a.pixels() =~= b.pixels());
}

} // verus!
