use vstd::prelude::*;

use crate::raster::{
    contours_of, edge_map, edges_of, encode_png, luma_of, png_of, strokes, to_luma,
    trace_contours, Raster,
};

verus! {

/// The length of a preview identifier, in characters.
pub const ID_LEN: usize = 21;

/// An encoded edge-map preview with the identifier that tells it apart from
/// every earlier preview.
#[derive(Clone, Debug)]
pub struct Img {
    pub id: String,
    pub buf: Vec<u8>,
}

/// One generation of derived data: the centring offset, the edge preview (if
/// it could be encoded) and the strokes in screen coordinates.
#[derive(Debug)]
pub struct Generation {
    pub offset: (i32, i32),
    pub preview: Option<Img>,
    pub contours: Vec<Vec<(i32, i32)>>,
}

/// Relies on nanoid's `format` with its default random source and the SAFE
/// alphabet (the expansion of `nanoid!()`): `size` characters, each from that
/// alphabet. The loop returns once `size` characters are drawn, so `size` is at
/// least one.
#[verifier::external_body]
fn fresh_id(size: usize) -> (r: String)
    requires
        size >= 1,
    ensures
        r@.len() == size,
        forall|i: int| 0 <= i < r@.len() ==> is_id_char(#[trigger] r@[i]),
{
    nanoid::format(nanoid::rngs::default, &nanoid::alphabet::SAFE, size)
}

/// A character of the URL-safe identifier alphabet.
pub open spec fn is_id_char(c: char) -> bool {
    c == '_' || c == '-' || ('0' <= c <= '9') || ('a' <= c <= 'z') || ('A' <= c <= 'Z')
}

pub open spec fn shift_point(p: (i32, i32), offset: (i32, i32)) -> (i32, i32) {
    ((p.0 + offset.0) as i32, (p.1 + offset.1) as i32)
}

pub open spec fn shift_stroke(c: Seq<(i32, i32)>, offset: (i32, i32)) -> Seq<(i32, i32)> {
    c.map_values(|p: (i32, i32)| shift_point(p, offset))
}

/// Every stroke moved by `offset`.
pub open spec fn shifted(cs: Seq<Seq<(i32, i32)>>, offset: (i32, i32)) -> Seq<Seq<(i32, i32)>> {
    cs.map_values(|c: Seq<(i32, i32)>| shift_stroke(c, offset))
}

pub open spec fn fits_i32(v: int) -> bool {
    i32::MIN <= v <= i32::MAX
}

/// Moving every point by `offset` stays within `i32`.
pub open spec fn shift_fits(cs: Seq<Seq<(i32, i32)>>, offset: (i32, i32)) -> bool {
    forall|i: int, j: int|
        0 <= i < cs.len() && 0 <= j < cs[i].len() ==> fits_i32(#[trigger] cs[i][j].0 + offset.0)
            && fits_i32(cs[i][j].1 + offset.1)
}

/// Translates raster-local strokes into screen coordinates.
pub fn translate(cs: &Vec<Vec<(i32, i32)>>, offset: (i32, i32)) -> (r: Vec<Vec<(i32, i32)>>)
    requires
        shift_fits(strokes(cs@), offset),
    ensures
        strokes(r@) == shifted(strokes(cs@), offset),
        is_translation(strokes(r@), strokes(cs@), offset),
{
    let mut out: Vec<Vec<(i32, i32)>> = Vec::new();
    let mut i: usize = 0;
    while i < cs.len()
        invariant
            0 <= i <= cs.len(),
            shift_fits(strokes(cs@), offset),
            out@.len() == i,
            forall|k: int| 0 <= k < i ==> (#[trigger] out@[k])@ == shift_stroke(cs@[k]@, offset),
        decreases cs.len() - i,
    {
        let c = &cs[i];
        let mut line: Vec<(i32, i32)> = Vec::new();
        let mut j: usize = 0;
        while j < c.len()
            invariant
                0 <= j <= c.len(),
                c@ == cs@[i as int]@,
                i < cs.len(),
                shift_fits(strokes(cs@), offset),
                line@.len() == j,
                forall|k: int| 0 <= k < j ==> (#[trigger] line@[k]) == shift_point(c@[k], offset),
            decreases c.len() - j,
        {
            let p = c[j];
            assert(strokes(cs@)[i as int][j as int] == p);
            line.push((p.0 + offset.0, p.1 + offset.1));
            j += 1;
        }
        assert(line@ =~= shift_stroke(cs@[i as int]@, offset));
        out.push(line);
        i += 1;
    }
    assert(strokes(out@) =~= shifted(strokes(cs@), offset));
    assert forall|i: int| 0 <= i < strokes(out@).len() implies (#[trigger] strokes(out@)[i]).len()
        == strokes(cs@)[i].len() by {
        assert(strokes(out@)[i] == shift_stroke(strokes(cs@)[i], offset));
    }
    assert forall|i: int, j: int|
        0 <= i < strokes(out@).len() && 0 <= j < strokes(out@)[i].len() implies {
        let p = #[trigger] strokes(out@)[i][j];
        &&& p.0 == strokes(cs@)[i][j].0 + offset.0
        &&& p.1 == strokes(cs@)[i][j].1 + offset.1
    } by {
        assert(strokes(out@)[i] == shift_stroke(strokes(cs@)[i], offset));
    }
    out
}

/// The edge map of a working raster at threshold `t`.
pub open spec fn edge_pixels(working: Raster, t: u32) -> Seq<u8> {
    edges_of(working.width, working.height, luma_of(working.width, working.height, working.pixels@), t)
}

/// The strokes traced on a working raster at threshold `t`, in raster
/// coordinates.
pub open spec fn local_strokes(working: Raster, t: u32) -> Seq<Seq<(i32, i32)>> {
    contours_of(working.width, working.height, edge_pixels(working, t))
}

/// `cs` is `local` with `offset` added to every point, exactly.
pub open spec fn is_translation(cs: Seq<Seq<(i32, i32)>>, local: Seq<Seq<(i32, i32)>>, offset: (i32, i32)) -> bool {
    &&& cs.len() == local.len()
    &&& forall|i: int| 0 <= i < cs.len() ==> (#[trigger] cs[i]).len() == local[i].len()
    &&& forall|i: int, j: int|
        0 <= i < cs.len() && 0 <= j < cs[i].len() ==> {
            let p = #[trigger] cs[i][j];
            &&& p.0 == local[i][j].0 + offset.0
            &&& p.1 == local[i][j].1 + offset.1
        }
}

/// The encoded preview of a working raster's edge map at threshold `t`.
pub open spec fn preview_bytes(working: Raster, t: u32) -> Option<Seq<u8>> {
    png_of(working.width, working.height, edge_pixels(working, t))
}

/// `g` is what the extractor derives from `working` at threshold `t`, centred by
/// `offset`.
pub open spec fn is_generation_of(g: Generation, working: Raster, t: u32, offset: (i32, i32)) -> bool {
    &&& g.offset == offset
    &&& is_translation(strokes(g.contours@), local_strokes(working, t), offset)
    &&& match g.preview {
        Some(img) => {
            &&& preview_bytes(working, t) == Some(img.buf@)
            &&& img.id@.len() == ID_LEN
            &&& forall|i: int| 0 <= i < img.id@.len() ==> is_id_char(#[trigger] img.id@[i])
        },
        None => preview_bytes(working, t).is_none(),
    }
}

/// Offsets under which every pixel of a `width` x `height` raster keeps an
/// `i32` screen position.
pub open spec fn offset_fits(width: int, height: int, offset: (i32, i32)) -> bool {
    offset.0 + width <= i32::MAX + 1 && offset.1 + height <= i32::MAX + 1
}

/// Every point lies on the raster's footprint on the screen: inside
/// `[offset, offset + side)` on each axis.
pub open spec fn on_raster(cs: Seq<Seq<(i32, i32)>>, width: int, height: int, offset: (i32, i32)) -> bool {
    forall|i: int, j: int|
        0 <= i < cs.len() && 0 <= j < cs[i].len() ==> {
            let p = #[trigger] cs[i][j];
            &&& offset.0 <= p.0 < offset.0 + width
            &&& offset.1 <= p.1 < offset.1 + height
        }
}

/// Runs edge detection and contour tracing on a working raster, translates the
/// strokes by `offset` and encodes a freshly tagged preview of the edge map.
pub fn extract(working: &Raster, threshold: u32, offset: (i32, i32)) -> (g: Generation)
    requires
        working.wf(),
        threshold >= 1,
        1 <= working.width <= i32::MAX,
        1 <= working.height <= i32::MAX,
        offset_fits(working.width as int, working.height as int, offset),
    ensures
        is_generation_of(g, *working, threshold, offset),
        on_raster(strokes(g.contours@), working.width as int, working.height as int, offset),
{
    let gray = to_luma(working);
    let edges = edge_map(&gray, threshold);
    let preview = match encode_png(&edges) {
        Some(buf) => Some(Img { id: fresh_id(ID_LEN), buf }),
        None => None,
    };
    let local = trace_contours(&edges);
    assert(shift_fits(strokes(local@), offset)) by {
        assert forall|i: int, j: int|
            0 <= i < strokes(local@).len() && 0 <= j < strokes(local@)[i].len() implies fits_i32(
            #[trigger] strokes(local@)[i][j].0 + offset.0) && fits_i32(strokes(local@)[i][j].1 + offset.1) by {
            assert(strokes(local@)[i][j] == local[i][j]);
        }
    }
    let contours = translate(&local, offset);
    assert forall|i: int, j: int|
        0 <= i < strokes(contours@).len() && 0 <= j < strokes(contours@)[i].len() implies {
        let p = #[trigger] strokes(contours@)[i][j];
        &&& offset.0 <= p.0 < offset.0 + working.width
        &&& offset.1 <= p.1 < offset.1 + working.height
    } by {
        assert(strokes(local@)[i][j] == local[i][j]);
        assert(strokes(contours@)[i] == shift_stroke(strokes(local@)[i], offset));
    }
    Generation { offset, preview, contours }
}

/// Extraction is a function of the working raster, the threshold and the
/// offset: two runs give the same strokes, point for point, and the same
/// preview bytes. Only the preview identifiers may differ.
pub proof fn lemma_extract_deterministic(g1: Generation, g2: Generation, working: Raster, t: u32, offset: (i32, i32))
    requires
        is_generation_of(g1, working, t, offset),
        is_generation_of(g2, working, t, offset),
    ensures
        strokes(g1.contours@) == strokes(g2.contours@),
        g1.offset == g2.offset,
        g1.preview.is_some() == g2.preview.is_some(),
        g1.preview.is_some() ==> g1.preview.unwrap().buf@ == g2.preview.unwrap().buf@,
{
    let a = strokes(g1.contours@);
    let b = strokes(g2.contours@);
    let local = local_strokes(working, t);
    assert forall|i: int| 0 <= i < a.len() implies #[trigger] a[i] =~= b[i] by {
        assert(a[i].len() == local[i].len());
        assert forall|j: int| 0 <= j < a[i].len() implies #[trigger] a[i][j] == b[i][j] by {
            assert(a[i][j].0 == local[i][j].0 + offset.0);
            assert(b[i][j].0 == local[i][j].0 + offset.0);
        }
    }
    assert(a =~= b);
}

} // verus!
