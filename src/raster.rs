use vstd::prelude::*;

verus! {

/// A picture in 8-bit RGBA, row-major, four bytes per pixel.
#[derive(Clone, Debug)]
pub struct Raster {
    pub width: u32,
    pub height: u32,
    pub pixels: Vec<u8>,
}

impl Raster {
    pub open spec fn wf(&self) -> bool {
        self.pixels@.len() == 4 * (self.width as int) * (self.height as int)
    }
}

/// A single-channel 8-bit picture, row-major, one byte per pixel.
#[derive(Clone, Debug)]
pub struct GrayRaster {
    pub width: u32,
    pub height: u32,
    pub pixels: Vec<u8>,
}

impl GrayRaster {
    pub open spec fn wf(&self) -> bool {
        self.pixels@.len() == (self.width as int) * (self.height as int)
    }
}

/// Edge detection output: each pixel is 0 or 255.
pub open spec fn is_binary(px: Seq<u8>) -> bool {
    forall|i: int| 0 <= i < px.len() ==> (px[i] == 0u8 || px[i] == 255u8)
}

/// What a Canny run with the given hysteresis thresholds yields on a gray picture.
pub uninterp spec fn canny_of(width: u32, height: u32, px: Seq<u8>, low: u16, high: u16) -> Seq<u8>;

/// Relies on imageproc's `edges::canny`: the edge map has the input's size, every
/// pixel is black or white, and the result depends on the arguments alone. It
/// asserts `high >= low`, and its suppression step counts rows down from
/// `height - 1`, so an empty picture is left out. With a low threshold of zero
/// the hysteresis walk takes the zero border as an edge and reads past the
/// picture, so the low threshold is at least one.
#[verifier::external_body]
fn canny(gray: &GrayRaster, low: u16, high: u16) -> (r: GrayRaster)
    requires
        gray.wf(),
        gray.width >= 1,
        gray.height >= 1,
        1 <= low <= high,
    ensures
        r.wf(),
        r.width == gray.width,
        r.height == gray.height,
        r.pixels@ == canny_of(gray.width, gray.height, gray.pixels@, low, high),
        is_binary(r.pixels@),
{
    let img = image::GrayImage::from_raw(gray.width, gray.height, gray.pixels.clone()).unwrap();
    let out = imageproc::edges::canny(&img, low.into(), high.into());
    GrayRaster { width: out.width(), height: out.height(), pixels: out.into_raw() }
}

/// The largest threshold handed to edge detection. Sobel gradients of an 8-bit
/// picture stay far below it, so saturating there leaves the edge map as it is.
pub const THRESHOLD_CAP: u16 = 65535;

pub open spec fn saturate(t: int) -> u16 {
    if t >= THRESHOLD_CAP as int { THRESHOLD_CAP } else { t as u16 }
}

/// The binary edge map of `gray` with low threshold `t` and high threshold `3t`.
pub open spec fn edges_of(width: u32, height: u32, px: Seq<u8>, t: u32) -> Seq<u8> {
    canny_of(width, height, px, saturate(t as int), saturate(3 * t))
}

fn saturated(t: u64) -> (r: u16)
    ensures
        r == saturate(t as int),
{
    if t >= THRESHOLD_CAP as u64 {
        THRESHOLD_CAP
    } else {
        t as u16
    }
}

/// Runs edge detection with the fixed 1:3 hysteresis ratio.
pub fn edge_map(gray: &GrayRaster, threshold: u32) -> (r: GrayRaster)
    requires
        gray.wf(),
        gray.width >= 1,
        gray.height >= 1,
        threshold >= 1,
    ensures
        r.wf(),
        r.width == gray.width,
        r.height == gray.height,
        r.pixels@ == edges_of(gray.width, gray.height, gray.pixels@, threshold),
        is_binary(r.pixels@),
{
    let low = saturated(threshold as u64);
    let high = saturated(3 * (threshold as u64));
    canny(gray, low, high)
}

/// What Lanczos3 resampling of an RGBA picture into the box `nwidth` x `nheight`
/// yields: its width, its height and its pixels.
pub uninterp spec fn lanczos_of(width: u32, height: u32, px: Seq<u8>, nwidth: u32, nheight: u32) -> (
    u32,
    u32,
    Seq<u8>,
);

pub open spec fn abs(v: int) -> int {
    if v >= 0 { v } else { -v }
}

/// `r` is `side * num / den` rounded to the nearest integer (either way on a
/// tie), or one where that rounds to zero. Without a bound on `den` the
/// floating-point ratio may move it by one pixel more.
pub open spec fn near_scaled(r: int, side: int, num: int, den: int) -> bool {
    &&& abs(r * den - side * num) <= den
    &&& den <= 0x1_0000 ==> (2 * abs(r * den - side * num) <= den || (r == 1 && 2 * side * num < den))
}

/// The size `rw` x `rh` that fitting a `w` x `h` picture into an `nw` x `nh`
/// box gives: each side at least one pixel and within the box, the side whose
/// ratio is smaller meets the box, and the other side is scaled by the same
/// ratio.
pub open spec fn fits_box(w: int, h: int, nw: int, nh: int, rw: int, rh: int) -> bool {
    &&& 1 <= rw && 1 <= rh
    &&& rw <= nw || rw == 1
    &&& rh <= nh || rh == 1
    &&& nw >= 1 && nh >= 1 && nw * h <= nh * w ==> rw == nw && near_scaled(rh, h, nw, w)
    &&& nw >= 1 && nh >= 1 && nh * w <= nw * h ==> rh == nh && near_scaled(rw, w, nh, h)
}

/// Relies on image's `DynamicImage::resize` with `FilterType::Lanczos3`: the
/// aspect ratio is kept and the picture is scaled to the largest size that fits
/// the box. The size comes from `resize_dimensions`: with the smaller of the two
/// `f64` ratios, each side is the source side times it, rounded to the nearest
/// integer and at least one. The side of the smaller ratio thereby meets the box
/// exactly. It divides by the source's sides.
#[verifier::external_body]
pub(crate) fn resize_lanczos(src: &Raster, nwidth: u32, nheight: u32) -> (r: Raster)
    requires
        src.wf(),
        src.width >= 1,
        src.height >= 1,
    ensures
        r.wf(),
        (r.width, r.height, r.pixels@) == lanczos_of(src.width, src.height, src.pixels@, nwidth, nheight),
        fits_box(src.width as int, src.height as int, nwidth as int, nheight as int, r.width as int, r.height as int),
{
    let img = image::RgbaImage::from_raw(src.width, src.height, src.pixels.clone()).unwrap();
    let filter = image::imageops::FilterType::Lanczos3;
    let out = image::DynamicImage::ImageRgba8(img).resize(nwidth, nheight, filter).into_rgba8();
    Raster { width: out.width(), height: out.height(), pixels: out.into_raw() }
}

/// The gray picture that image's luma conversion makes of RGBA pixels.
pub uninterp spec fn luma_of(width: u32, height: u32, px: Seq<u8>) -> Seq<u8>;

/// Relies on image's `DynamicImage::to_luma8`: one gray byte per pixel, same size.
#[verifier::external_body]
pub(crate) fn to_luma(src: &Raster) -> (r: GrayRaster)
    requires
        src.wf(),
    ensures
        r.wf(),
        r.width == src.width,
        r.height == src.height,
        r.pixels@ == luma_of(src.width, src.height, src.pixels@),
{
    let img = image::RgbaImage::from_raw(src.width, src.height, src.pixels.clone()).unwrap();
    let out = image::DynamicImage::ImageRgba8(img).to_luma8();
    GrayRaster { width: out.width(), height: out.height(), pixels: out.into_raw() }
}

/// What PNG encoding of a gray picture gives: the file's bytes, or `None` where
/// the encoder reports an error.
pub uninterp spec fn png_of(width: u32, height: u32, px: Seq<u8>) -> Option<Seq<u8>>;

/// Relies on image's `ImageBuffer::write_to` with `ImageFormat::Png`, writing
/// into memory.
#[verifier::external_body]
pub(crate) fn encode_png(src: &GrayRaster) -> (r: Option<Vec<u8>>)
    requires
        src.wf(),
    ensures
        r.is_some() == png_of(src.width, src.height, src.pixels@).is_some(),
        r.is_some() ==> r.unwrap()@ == png_of(src.width, src.height, src.pixels@).unwrap(),
{
    let img = image::GrayImage::from_raw(src.width, src.height, src.pixels.clone()).unwrap();
    let mut data = std::io::Cursor::new(Vec::new());
    match img.write_to(&mut data, image::ImageFormat::Png) {
        Ok(()) => Some(data.into_inner()),
        Err(_) => None,
    }
}

/// The points of each stroke.
pub open spec fn strokes(cs: Seq<Vec<(i32, i32)>>) -> Seq<Seq<(i32, i32)>> {
    cs.map_values(|c: Vec<(i32, i32)>| c@)
}

/// The borders that contour tracing finds among the non-zero pixels, each as
/// the ordered points of one border.
pub uninterp spec fn contours_of(width: u32, height: u32, px: Seq<u8>) -> Seq<Seq<(i32, i32)>>;

/// Relies on imageproc's `contours::find_contours`: each border holds at least
/// one point, and every point is a pixel of the picture. It casts coordinates to
/// `i32` with `unwrap`, so sides past `i32::MAX` are left out.
#[verifier::external_body]
pub(crate) fn trace_contours(src: &GrayRaster) -> (r: Vec<Vec<(i32, i32)>>)
    requires
        src.wf(),
        src.width <= i32::MAX,
        src.height <= i32::MAX,
    ensures
        strokes(r@) == contours_of(src.width, src.height, src.pixels@),
        forall|i: int| 0 <= i < r.len() ==> #[trigger] r[i].len() >= 1,
        forall|i: int, j: int|
            0 <= i < r.len() && 0 <= j < r[i].len() ==> 0 <= (#[trigger] r[i][j]).0 < src.width
                && 0 <= r[i][j].1 < src.height,
{
    let img = image::GrayImage::from_raw(src.width, src.height, src.pixels.clone()).unwrap();
    let found = imageproc::contours::find_contours::<i32>(&img);
    found.into_iter().map(|c| c.points.into_iter().map(|p| (p.x, p.y)).collect()).collect()
}

} // verus!
