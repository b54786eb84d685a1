use vstd::prelude::*;

use crate::control::{start_spec, DrawControl};
use crate::extract::{extract, is_generation_of, offset_fits, on_raster, Generation};
use crate::raster::{abs, fits_box, near_scaled, strokes, Raster};
use crate::replay::{plan_of, Replay};
use crate::scaler::{centering, fit_side, lemma_side_monotone, scale, working_of, Screen};

verus! {

/// The language of the control panel's labels.
#[derive(Clone, Copy, Debug, PartialEq, Eq, Structural)]
pub enum Language {
    Chinese,
    English,
}

/// The drawing pipeline's settings and its derived data. `raw_img` is the
/// source picture, `resized_img` the working raster, `center` the offset that
/// centres it, and `generation` the strokes and preview derived from them.
#[derive(Debug)]
pub struct Panel {
    pub screen: Screen,
    pub area: u32,
    pub canny_value: u32,
    pub point_count: usize,
    pub upscale: bool,
    pub language: Language,
    pub raw_img: Option<Raster>,
    pub resized_img: Option<Raster>,
    pub center: (i32, i32),
    pub generation: Option<Generation>,
}

/// `r` is the working raster that `src` scales to.
pub open spec fn is_working_of(r: Raster, src: Raster, screen: Screen, area: int, upscale: bool) -> bool {
    let side = fit_side(screen, area, src.width as int, src.height as int, upscale);
    &&& (r.width, r.height, r.pixels@) == working_of(src, screen, area, upscale)
    &&& fits_box(src.width as int, src.height as int, side, side, r.width as int, r.height as int)
}

/// `center` centres the raster `r` on `screen`.
pub open spec fn is_centered(center: (i32, i32), r: Raster, screen: Screen) -> bool {
    (center.0 as int, center.1 as int) == centering(screen, r.width as int, r.height as int)
}

pub open spec fn usable_source(r: Raster) -> bool {
    r.wf() && r.width >= 1 && r.height >= 1
}

pub open spec fn usable_working(r: Raster, center: (i32, i32)) -> bool {
    &&& r.wf()
    &&& 1 <= r.width <= i32::MAX
    &&& 1 <= r.height <= i32::MAX
    &&& offset_fits(r.width as int, r.height as int, center)
}

impl Panel {
    /// The settings are in range, a stored generation lies on the working
    /// raster's footprint on the screen, and a stored generation was derived from the
    /// stored working raster, offset and threshold: they never come from two
    /// different generations.
    pub open spec fn wf(&self) -> bool {
        &&& self.screen.wf()
        &&& self.area <= 100
        &&& self.canny_value >= 1
        &&& (self.raw_img matches Some(src) ==> usable_source(src))
        &&& (self.resized_img matches Some(w) ==> usable_working(w, self.center))
        &&& (self.generation matches Some(g) ==> {
            &&& self.resized_img is Some
            &&& is_generation_of(g, self.resized_img.unwrap(), self.canny_value, self.center)
            &&& on_raster(
                strokes(g.contours@),
                self.resized_img.unwrap().width as int,
                self.resized_img.unwrap().height as int,
                self.center,
            )
        })
    }

    /// Default settings on a screen of the given size, with no picture.
    pub fn with_screen(screen: Screen) -> (r: Panel)
        requires
            screen.wf(),
        ensures
            r.wf(),
            r.screen == screen,
            r.area == 70,
            r.canny_value == 25,
            r.point_count == 10,
            !r.upscale,
            r.language == Language::Chinese,
            r.raw_img is None,
            r.resized_img is None,
            r.center == (0i32, 0i32),
            r.generation is None,
    {
        Panel {
            screen,
            area: 70,
            canny_value: 25,
            point_count: 10,
            upscale: false,
            language: Language::Chinese,
            raw_img: None,
            resized_img: None,
            center: (0, 0),
            generation: None,
        }
    }

    /// Recomputes the derived data. With `area`, the working raster and its
    /// offset are first remade from the source picture; then the strokes and the
    /// preview are remade from the working raster. Where the needed picture is
    /// missing nothing changes.
    pub fn reload(&mut self, area: bool)
        requires
            old(self).wf(),
        ensures
            final(self).wf(),
            final(self).screen == old(self).screen,
            final(self).area == old(self).area,
            final(self).canny_value == old(self).canny_value,
            final(self).point_count == old(self).point_count,
            final(self).upscale == old(self).upscale,
            final(self).language == old(self).language,
            final(self).raw_img == old(self).raw_img,
            area && old(self).raw_img is None ==> *final(self) == *old(self),
            !area && old(self).resized_img is None ==> *final(self) == *old(self),
            area && old(self).raw_img is Some ==> {
                &&& final(self).resized_img is Some
                &&& is_working_of(
                    final(self).resized_img.unwrap(),
                    old(self).raw_img.unwrap(),
                    old(self).screen,
                    old(self).area as int,
                    old(self).upscale,
                )
                &&& is_centered(final(self).center, final(self).resized_img.unwrap(), old(self).screen)
            },
            !area ==> final(self).resized_img == old(self).resized_img && final(self).center == old(self).center,
            (area && old(self).raw_img is Some) || (!area && old(self).resized_img is Some) ==> {
                &&& final(self).generation is Some
                &&& is_generation_of(
                    final(self).generation.unwrap(),
                    final(self).resized_img.unwrap(),
                    final(self).canny_value,
                    final(self).center,
                )
            },
    {
        if area {
            match &self.raw_img {
                None => {
                    return ;
                },
                Some(src) => {
                    let (working, offset) = scale(src, self.screen, self.area, self.upscale);
                    self.resized_img = Some(working);
                    self.center = offset;
                    self.generation = None;
                },
            }
        }
        match &self.resized_img {
            None => {},
            Some(working) => {
                let g = extract(working, self.canny_value, self.center);
                self.generation = Some(g);
            },
        }
    }

    /// Takes a new source picture and derives everything from it.
    pub fn open_image(&mut self, image: Raster)
        requires
            old(self).wf(),
            usable_source(image),
        ensures
            final(self).wf(),
            final(self).screen == old(self).screen,
            final(self).point_count == old(self).point_count,
            final(self).upscale == old(self).upscale,
            final(self).language == old(self).language,
            final(self).area == old(self).area,
            final(self).canny_value == old(self).canny_value,
            final(self).raw_img == Some(image),
            final(self).resized_img is Some,
            is_working_of(final(self).resized_img.unwrap(), image, old(self).screen, old(self).area as int, old(self).upscale),
            is_centered(final(self).center, final(self).resized_img.unwrap(), old(self).screen),
            final(self).generation is Some,
            is_generation_of(
                final(self).generation.unwrap(),
                final(self).resized_img.unwrap(),
                old(self).canny_value,
                final(self).center,
            ),
    {
        self.raw_img = Some(image);
        self.reload(true);
    }

    /// Changes the edge threshold and remakes the strokes and the preview. The
    /// working raster and its offset stay as they are.
    pub fn set_threshold(&mut self, threshold: u32)
        requires
            old(self).wf(),
            threshold >= 1,
        ensures
            final(self).wf(),
            final(self).screen == old(self).screen,
            final(self).point_count == old(self).point_count,
            final(self).upscale == old(self).upscale,
            final(self).language == old(self).language,

            final(self).canny_value == threshold,
            final(self).area == old(self).area,
            final(self).raw_img == old(self).raw_img,
            final(self).resized_img == old(self).resized_img,
            final(self).center == old(self).center,
            old(self).resized_img is None ==> final(self).generation is None,
            old(self).resized_img is Some ==> {
                &&& final(self).generation is Some
                &&& is_generation_of(
                    final(self).generation.unwrap(),
                    old(self).resized_img.unwrap(),
                    threshold,
                    old(self).center,
                )
            },
    {
        self.canny_value = threshold;
        self.generation = None;
        self.reload(false);
    }

    /// Changes the area share and remakes the working raster, its offset, the
    /// strokes and the preview from the source picture.
    pub fn set_area(&mut self, area: u32)
        requires
            old(self).wf(),
            area <= 100,
        ensures
            final(self).wf(),
            final(self).screen == old(self).screen,
            final(self).point_count == old(self).point_count,
            final(self).upscale == old(self).upscale,
            final(self).language == old(self).language,
            final(self).area == area,
            old(self).raw_img is None ==> {
                &&& final(self).resized_img == old(self).resized_img
                &&& final(self).center == old(self).center
                &&& final(self).generation == old(self).generation
            },
            final(self).canny_value == old(self).canny_value,
            final(self).raw_img == old(self).raw_img,
            old(self).raw_img is Some ==> {
                &&& final(self).resized_img is Some
                &&& is_working_of(
                    final(self).resized_img.unwrap(),
                    old(self).raw_img.unwrap(),
                    old(self).screen,
                    area as int,
                    old(self).upscale,
                )
                &&& is_centered(final(self).center, final(self).resized_img.unwrap(), old(self).screen)
                &&& final(self).generation is Some
                &&& is_generation_of(
                    final(self).generation.unwrap(),
                    final(self).resized_img.unwrap(),
                    old(self).canny_value,
                    final(self).center,
                )
            },
    {
        self.area = area;
        self.reload(true);
    }

    /// Handles a start request: claims the session through `control` and, where
    /// strokes are stored, returns a replay of them as they are now. With no
    /// strokes the claim is given back at once.
    pub fn draw(&self, control: &mut DrawControl) -> (r: Option<Replay>)
        requires
            self.wf(),
        ensures
            !start_spec(*old(control)).1 ==> r is None && *final(control) == *old(control),
            start_spec(*old(control)).1 && self.generation is None ==> {
                &&& r is None
                &&& *final(control) == DrawControl::idle()
            },
            start_spec(*old(control)).1 && self.generation is Some ==> {
                &&& *final(control) == start_spec(*old(control)).0
                &&& r is Some
                &&& r.unwrap().wf()
                &&& r.unwrap().actions@ == plan_of(
                    strokes(self.generation.unwrap().contours@),
                    self.point_count as int,
                )
                &&& r.unwrap().next == 0
                &&& !r.unwrap().pressed
                &&& !r.unwrap().finished
            },
    {
        if !control.try_start() {
            return None;
        }
        match &self.generation {
            None => {
                control.finish();
                None
            },
            Some(g) => Some(Replay::new(&g.contours, self.point_count)),
        }
    }
}

impl Default for Panel {
    /// The default settings with a screen of unknown size.
    fn default() -> (r: Panel)
        ensures
            r.wf(),
            r.screen == (Screen { width: 0, height: 0 }),
            r.area == 70,
            r.canny_value == 25,
            r.point_count == 10,
            !r.upscale,
            r.language == Language::Chinese,
            r.raw_img is None,
            r.resized_img is None,
            r.center == (0i32, 0i32),
            r.generation is None,
    {
        Panel::with_screen(Screen { width: 0, height: 0 })
    }
}

proof fn lemma_scaled_monotone(r1: int, r2: int, side: int, s1: int, s2: int, den: int)
    requires
        1 <= den <= 0x1_0000,
        side >= 1,
        1 <= s1 < s2,
        r1 >= 1,
        r2 >= 1,
        near_scaled(r1, side, s1, den),
        near_scaled(r2, side, s2, den),
    ensures
        r1 <= r2,
{
    if r1 != 1 {
        assert(side * s1 < side * s2) by (nonlinear_arith)
            requires
                side >= 1,
                s1 < s2,
        ;
        assert(2 * (r1 * den - side * s1) <= den);
        if 2 * abs(r2 * den - side * s2) <= den {
            assert(r1 <= r2) by (nonlinear_arith)
                requires
                    2 * (r1 * den - side * s1) <= den,
                    2 * (side * s2 - r2 * den) <= den,
                    side * s1 < side * s2,
                    den >= 1,
            ;
        } else {
            assert(r1 <= r2) by (nonlinear_arith)
                requires
                    2 * (r1 * den - side * s1) <= den,
                    2 * side * s2 < den,
                    side * s1 < side * s2,
                    r1 >= 2,
                    den >= 1,
            ;
        }
    }
}

/// A larger area share never gives a smaller working raster: its width and its
/// height each stay the same or grow. Shown for sources of up to 65536 pixels a
/// side, where the resize's rounding is exact.
pub proof fn lemma_working_raster_monotone(
    src: Raster,
    screen: Screen,
    upscale: bool,
    p1: u32,
    p2: u32,
    r1: Raster,
    r2: Raster,
)
    requires
        screen.wf(),
        usable_source(src),
        src.width <= 0x1_0000,
        src.height <= 0x1_0000,
        p1 < p2 <= 100,
        is_working_of(r1, src, screen, p1 as int, upscale),
        is_working_of(r2, src, screen, p2 as int, upscale),
    ensures
        r1.width <= r2.width,
        r1.height <= r2.height,
{
    let (w, h) = (src.width as int, src.height as int);
    let s1 = fit_side(screen, p1 as int, w, h, upscale);
    let s2 = fit_side(screen, p2 as int, w, h, upscale);
    lemma_side_monotone(screen, src.width, src.height, p1, p2, upscale);
    if s1 == s2 {
        assert(working_of(src, screen, p1 as int, upscale) == working_of(src, screen, p2 as int, upscale));
    } else if s1 >= 1 {
        if h <= w {
            assert(s1 * h <= s1 * w && s2 * h <= s2 * w) by (nonlinear_arith)
                requires
                    h <= w,
                    s1 >= 1,
                    s2 >= 1,
            ;
            lemma_scaled_monotone(r1.height as int, r2.height as int, h, s1, s2, w);
        } else {
            assert(s1 * w <= s1 * h && s2 * w <= s2 * h) by (nonlinear_arith)
                requires
                    w < h,
                    s1 >= 1,
                    s2 >= 1,
            ;
            lemma_scaled_monotone(r1.width as int, r2.width as int, w, s1, s2, h);
        }
    }
}

} // verus!
