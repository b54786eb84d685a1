use vstd::prelude::*;

use crate::raster::{fits_box, lanczos_of, resize_lanczos, Raster};

verus! {

/// The display's size in pixels.
#[derive(Clone, Copy, Debug, PartialEq, Eq, Structural)]
pub struct Screen {
    pub width: i32,
    pub height: i32,
}

impl Screen {
    pub open spec fn wf(self) -> bool {
        self.width >= 0 && self.height >= 0
    }
}

/// `area` percent of one screen side, rounded down.
pub open spec fn share(side: int, area: int) -> int {
    side * area / 100
}

/// A source is wide when its height is less than two thirds of its width.
pub open spec fn is_wide(width: int, height: int) -> bool {
    3 * height < 2 * width
}

/// The side of the square box that the working raster is fitted into: a share
/// of the screen's width for wide sources, of its height otherwise.
pub open spec fn box_side(screen: Screen, area: int, width: int, height: int) -> int {
    if is_wide(width, height) {
        share(screen.width as int, area)
    } else {
        share(screen.height as int, area)
    }
}

/// The box side once the scaling policy is applied: without upscaling, the box
/// never exceeds the source's longer side.
pub open spec fn fit_side(screen: Screen, area: int, width: int, height: int, upscale: bool) -> int {
    let b = box_side(screen, area, width, height);
    let longer = if width >= height { width } else { height };
    if upscale || b <= longer { b } else { longer }
}

/// Division by two that rounds toward zero, as integer division on `i32` does.
pub open spec fn half(d: int) -> int {
    if d >= 0 { d / 2 } else { -((-d) / 2) }
}

/// The translation that centres a `width` x `height` raster on the screen.
pub open spec fn centering(screen: Screen, width: int, height: int) -> (int, int) {
    (half(screen.width - width), half(screen.height - height))
}

pub open spec fn longer_side(width: int, height: int) -> int {
    if width >= height { width } else { height }
}

/// The side of the box that a `width` x `height` source is fitted into.
pub fn bounding_dimension(screen: Screen, area: u32, width: u32, height: u32, upscale: bool) -> (r: u32)
    requires
        screen.wf(),
        area <= 100,
    ensures
        r == fit_side(screen, area as int, width as int, height as int, upscale),
{
    let side: u64 = if 3 * (height as u64) < 2 * (width as u64) {
        screen.width as u64
    } else {
        screen.height as u64
    };
    assert(side * (area as u64) <= side * 100) by (nonlinear_arith)
        requires
            area <= 100,
    ;
    let b: u64 = side * (area as u64) / 100;
    assert(b <= side) by (nonlinear_arith)
        requires
            b == side * area / 100,
            area <= 100,
    ;
    let longer: u64 = if width >= height { width as u64 } else { height as u64 };
    if upscale || b <= longer {
        b as u32
    } else {
        longer as u32
    }
}

/// The offset that centres a raster of the given size on the screen; negative
/// where the raster is larger than the screen.
pub fn center_offset(screen: Screen, width: u32, height: u32) -> (r: (i32, i32))
    requires
        screen.wf(),
    ensures
        (r.0 as int, r.1 as int) == centering(screen, width as int, height as int),
{
    (half_of(screen.width as i64 - width as i64), half_of(screen.height as i64 - height as i64))
}

fn half_of(d: i64) -> (r: i32)
    requires
        -0x1_0000_0000 < d <= i32::MAX,
    ensures
        r as int == half(d as int),
{
    if d >= 0 {
        (d / 2) as i32
    } else {
        -((-d) / 2) as i32
    }
}

/// The working raster that `src` scales to: its width, height and pixels.
pub open spec fn working_of(src: Raster, screen: Screen, area: int, upscale: bool) -> (u32, u32, Seq<u8>) {
    let side = fit_side(screen, area, src.width as int, src.height as int, upscale);
    lanczos_of(src.width, src.height, src.pixels@, side as u32, side as u32)
}

/// A share of a side is at most the side.
pub proof fn lemma_share_bounded(side: int, area: int)
    requires
        side >= 0,
        0 <= area <= 100,
    ensures
        0 <= share(side, area) <= side,
{
    assert(0 <= side * area <= side * 100) by (nonlinear_arith)
        requires
            side >= 0,
            0 <= area <= 100,
    ;
}

/// Fits `src` into its box and returns the working raster with the offset that
/// centres it on the screen.
pub fn scale(src: &Raster, screen: Screen, area: u32, upscale: bool) -> (r: (Raster, (i32, i32)))
    requires
        src.wf(),
        src.width >= 1,
        src.height >= 1,
        screen.wf(),
        area <= 100,
    ensures
        ({
            let side = fit_side(screen, area as int, src.width as int, src.height as int, upscale);
            let (w, h, px) = working_of(*src, screen, area as int, upscale);
            &&& r.0.width == w && r.0.height == h && r.0.pixels@ == px
            &&& r.0.wf()
            &&& fits_box(src.width as int, src.height as int, side, side, w as int, h as int)
            &&& longer_side(w as int, h as int) == working_side(screen, area as int, src.width as int, src.height as int, upscale)
            &&& (r.1.0 as int, r.1.1 as int) == centering(screen, w as int, h as int)
            &&& 1 <= w <= i32::MAX && 1 <= h <= i32::MAX
            &&& r.1.0 + w <= i32::MAX + 1 && r.1.1 + h <= i32::MAX + 1
        }),
{
    let side = bounding_dimension(screen, area, src.width, src.height, upscale);
    let working = resize_lanczos(src, side, side);
    let offset = center_offset(screen, working.width, working.height);
    proof {
        lemma_share_bounded(screen.width as int, area as int);
        lemma_share_bounded(screen.height as int, area as int);
        let (w, h, s) = (src.width as int, src.height as int, side as int);
        if s >= 1 {
            if h <= w {
                assert(s * h <= s * w) by (nonlinear_arith)
                    requires
                        h <= w,
                        s >= 1,
                ;
            } else {
                assert(s * w <= s * h) by (nonlinear_arith)
                    requires
                        w < h,
                        s >= 1,
                ;
            }
        }
    }
    (working, offset)
}

/// The longer side of the working raster: the box side, or one pixel where the
/// box is empty.
pub open spec fn working_side(screen: Screen, area: int, width: int, height: int, upscale: bool) -> int {
    let side = fit_side(screen, area, width, height, upscale);
    if side >= 1 { side } else { 1 }
}

/// A larger area share never gives a smaller working raster: the box side, and
/// the longer side of the raster fitted into it, do not decrease as the share
/// grows, under either scaling policy.
pub proof fn lemma_side_monotone(screen: Screen, width: u32, height: u32, p1: u32, p2: u32, upscale: bool)
    requires
        screen.wf(),
        p1 < p2 <= 100,
    ensures
        box_side(screen, p1 as int, width as int, height as int)
            <= box_side(screen, p2 as int, width as int, height as int),
        fit_side(screen, p1 as int, width as int, height as int, upscale)
            <= fit_side(screen, p2 as int, width as int, height as int, upscale),
        working_side(screen, p1 as int, width as int, height as int, upscale)
            <= working_side(screen, p2 as int, width as int, height as int, upscale),
{
    let side = if is_wide(width as int, height as int) { screen.width as int } else { screen.height as int };
    assert(side * p1 <= side * p2) by (nonlinear_arith)
        requires
            side >= 0,
            p1 < p2,
    ;
    vstd::arithmetic::div_mod::lemma_div_is_ordered(side * p1, side * p2, 100);
}

/// Centring a raster that fits on the screen leaves margins that differ by at
/// most one pixel: twice the offset plus the raster's side is the screen's
/// side, or one less.
pub proof fn lemma_centering_fills_screen(screen: Screen, width: u32, height: u32)
    requires
        screen.wf(),
        width <= screen.width,
        height <= screen.height,
    ensures
        ({
            let (x, y) = centering(screen, width as int, height as int);
            &&& screen.width - 1 <= 2 * x + width <= screen.width
            &&& screen.height - 1 <= 2 * y + height <= screen.height
        }),
{
}

} // verus!
