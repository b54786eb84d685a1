use autodraw::control::{DrawControl, State};
use autodraw::extract::{extract, translate, ID_LEN};
use autodraw::panel::{Language, Panel};
use autodraw::raster::{edge_map, GrayRaster, Raster};
use autodraw::replay::{plan, Action, Replay};
use autodraw::scaler::{bounding_dimension, center_offset, scale, Screen};

fn solid(width: u32, height: u32, value: u8) -> Raster {
    Raster { width, height, pixels: vec![value; (4 * width * height) as usize] }
}

/// A black picture with a white square in the middle.
fn square(side: u32, inner: u32) -> Raster {
    let mut pixels = vec![0u8; (4 * side * side) as usize];
    let lo = (side - inner) / 2;
    for y in lo..lo + inner {
        for x in lo..lo + inner {
            let i = (4 * (y * side + x)) as usize;
            pixels[i] = 255;
            pixels[i + 1] = 255;
            pixels[i + 2] = 255;
            pixels[i + 3] = 255;
        }
    }
    for i in 0..(side * side) as usize {
        pixels[4 * i + 3] = 255;
    }
    Raster { width: side, height: side, pixels }
}

const HD: Screen = Screen { width: 1920, height: 1080 };

#[test]
fn full_hd_source_at_half_area() {
    assert_eq!(bounding_dimension(HD, 50, 1920, 1080, false), 960);
    let src = solid(1920, 1080, 128);
    let (working, offset) = scale(&src, HD, 50, false);
    assert_eq!((working.width, working.height), (960, 540));
    assert_eq!(working.pixels.len(), 4 * 960 * 540);
    assert_eq!(offset, (480, 270));
}

#[test]
fn tall_source_is_bounded_by_screen_height() {
    assert_eq!(bounding_dimension(HD, 50, 100, 200, true), 540);
    let (working, offset) = scale(&solid(100, 200, 9), HD, 50, true);
    assert_eq!((working.width, working.height), (270, 540));
    assert_eq!(offset, (825, 270));
}

#[test]
fn no_upscale_keeps_small_sources() {
    assert_eq!(bounding_dimension(HD, 100, 300, 100, false), 300);
    assert_eq!(bounding_dimension(HD, 100, 300, 100, true), 1920);
    let (working, offset) = scale(&solid(300, 100, 7), HD, 100, false);
    assert_eq!((working.width, working.height), (300, 100));
    assert_eq!(offset, (810, 490));
}

#[test]
fn zero_area_gives_one_pixel() {
    assert_eq!(bounding_dimension(HD, 0, 640, 480, true), 0);
    let (working, _) = scale(&solid(640, 480, 1), HD, 0, true);
    assert_eq!((working.width, working.height), (1, 1));
}

#[test]
fn box_side_grows_with_area() {
    let mut last = 0;
    for area in 0..=100 {
        let side = bounding_dimension(HD, area, 1000, 900, true);
        assert!(side >= last);
        last = side;
    }
    assert_eq!(last, 1080);
}

#[test]
fn offsets_center_and_may_be_negative() {
    assert_eq!(center_offset(HD, 960, 540), (480, 270));
    assert_eq!(center_offset(HD, 961, 541), (479, 269));
    assert_eq!(center_offset(HD, 2000, 1081), (-40, 0));
    assert_eq!(center_offset(HD, 2001, 1083), (-40, -1));
    let (x, y) = center_offset(HD, 333, 777);
    assert!(1919 <= 2 * x + 333 && 2 * x + 333 <= 1920);
    assert!(1079 <= 2 * y + 777 && 2 * y + 777 <= 1080);
}

#[test]
fn edge_map_is_binary_and_finds_the_square() {
    let side = 40u32;
    let mut pixels = vec![0u8; (side * side) as usize];
    for y in 10..30 {
        for x in 10..30 {
            pixels[(y * side + x) as usize] = 255;
        }
    }
    let gray = GrayRaster { width: side, height: side, pixels };
    let edges = edge_map(&gray, 25);
    assert_eq!((edges.width, edges.height), (side, side));
    assert!(edges.pixels.iter().all(|p| *p == 0 || *p == 255));
    assert!(edges.pixels.iter().any(|p| *p == 255));
    let flat = GrayRaster { width: side, height: side, pixels: vec![90; (side * side) as usize] };
    assert!(edge_map(&flat, 25).pixels.iter().all(|p| *p == 0));
    assert!(edge_map(&gray, u32::MAX).pixels.iter().all(|p| *p == 0));
}

#[test]
fn translate_adds_offset_to_every_point() {
    let cs = vec![vec![(0, 0), (1, 2)], vec![], vec![(5, -3)]];
    let moved = translate(&cs, (10, -4));
    assert_eq!(moved, vec![vec![(10, -4), (11, -2)], vec![], vec![(15, -7)]]);
}

#[test]
fn strokes_are_translated_onto_the_screen() {
    let working = square(48, 20);
    let offset = (100, 200);
    let g = extract(&working, 25, offset);
    assert!(!g.contours.is_empty());
    let local = extract(&working, 25, (0, 0));
    assert_eq!(g.contours.len(), local.contours.len());
    for (c, l) in g.contours.iter().zip(local.contours.iter()) {
        assert_eq!(c.len(), l.len());
        for (p, q) in c.iter().zip(l.iter()) {
            assert_eq!((p.0 - q.0, p.1 - q.1), offset);
            assert!(100 <= p.0 && p.0 < 148 && 200 <= p.1 && p.1 < 248);
        }
    }
}

#[test]
fn extraction_repeats_except_for_the_preview_id() {
    let working = square(48, 20);
    let a = extract(&working, 25, (7, 9));
    let b = extract(&working, 25, (7, 9));
    assert_eq!(a.contours, b.contours);
    assert_eq!(a.offset, b.offset);
    let (pa, pb) = (a.preview.unwrap(), b.preview.unwrap());
    assert_eq!(pa.buf, pb.buf);
    assert_eq!(&pa.buf[1..4], b"PNG");
    assert_eq!(pa.id.len(), ID_LEN);
    assert_ne!(pa.id, pb.id);
}

#[test]
fn threshold_change_keeps_offset_and_renews_preview() {
    let mut panel = Panel::with_screen(HD);
    panel.open_image(square(64, 30));
    let center = panel.center;
    let first_id = panel.generation.as_ref().unwrap().preview.as_ref().unwrap().id.clone();
    panel.set_threshold(50);
    assert_eq!(panel.canny_value, 50);
    assert_eq!(panel.center, center);
    let g = panel.generation.as_ref().unwrap();
    assert_eq!(g.offset, center);
    assert_ne!(g.preview.as_ref().unwrap().id, first_id);
}

#[test]
fn area_change_rescales() {
    let mut panel = Panel::with_screen(HD);
    panel.upscale = true;
    panel.open_image(square(64, 30));
    assert_eq!(panel.resized_img.as_ref().unwrap().width, 756);
    panel.set_area(10);
    assert_eq!(panel.resized_img.as_ref().unwrap().width, 108);
    assert_eq!(panel.center, (906, 486));
}

#[test]
fn reload_without_picture_changes_nothing() {
    let mut panel = Panel::default();
    assert_eq!((panel.area, panel.canny_value, panel.point_count), (70, 25, 10));
    assert_eq!(panel.language, Language::Chinese);
    panel.reload(true);
    panel.reload(false);
    assert!(panel.resized_img.is_none());
    assert!(panel.generation.is_none());
}

#[test]
fn plan_walks_strokes_and_skips_short_ones() {
    let cs = vec![vec![(1, 1), (2, 2), (3, 3)], vec![(9, 9)], vec![(4, 4), (5, 5)]];
    let all = plan(&cs, 0);
    assert_eq!(all.len(), 9 + 5 + 7);
    assert_eq!(
        &all[..9],
        &[
            Action::MoveTo(1, 1),
            Action::Press,
            Action::PointPause,
            Action::MoveTo(2, 2),
            Action::PointPause,
            Action::MoveTo(3, 3),
            Action::PointPause,
            Action::Release,
            Action::StrokePause,
        ]
    );
    let filtered = plan(&cs, 1);
    let without = plan(&vec![cs[0].clone(), cs[2].clone()], 1);
    assert_eq!(filtered, without);
    assert_eq!(plan(&cs, 2).len(), 9);
    assert!(plan(&cs, 3).is_empty());
    assert!(plan(&vec![vec![]], 0).is_empty());
}

#[test]
fn stop_mid_stroke_releases_first() {
    let cs = vec![vec![(1, 1), (2, 2), (3, 3)]];
    let mut replay = Replay::new(&cs, 0);
    assert_eq!(replay.step(false), Some(Action::MoveTo(1, 1)));
    assert_eq!(replay.step(false), Some(Action::Press));
    assert_eq!(replay.step(false), Some(Action::PointPause));
    assert_eq!(replay.step(true), Some(Action::Release));
    assert!(replay.finished && !replay.pressed);
    assert_eq!(replay.step(false), None);
}

#[test]
fn replay_runs_to_completion() {
    let cs = vec![vec![(1, 1)], vec![(4, 4), (5, 5)]];
    let mut replay = Replay::new(&cs, 0);
    let mut seen = Vec::new();
    while let Some(a) = replay.step(false) {
        seen.push(a);
    }
    assert_eq!(seen.len(), 5 + 7);
    assert_eq!(seen.last(), Some(&Action::StrokePause));
    assert!(!replay.pressed);
    assert_eq!(replay.step(true), None);
}

#[test]
fn stop_between_strokes_needs_no_release() {
    let cs = vec![vec![(1, 1)], vec![(4, 4)]];
    let mut replay = Replay::new(&cs, 0);
    for _ in 0..5 {
        replay.step(false);
    }
    assert_eq!(replay.step(true), None);
}

#[test]
fn second_start_is_refused() {
    let mut control = DrawControl::new();
    assert!(control.try_start());
    assert!(!control.try_start());
    control.request_stop();
    assert_eq!(control.state, State::Stop);
    assert!(control.should_stop());
    assert!(!control.try_start());
    control.finish();
    assert!(control.try_start());
    assert_eq!(control.state, State::Drawing);
}

#[test]
fn draw_without_strokes_returns_to_idle() {
    let panel = Panel::with_screen(HD);
    let mut control = DrawControl::new();
    assert!(panel.draw(&mut control).is_none());
    assert_eq!(control, DrawControl { state: State::Stop, active: false });
}

#[test]
fn draw_snapshots_the_strokes() {
    let mut panel = Panel::with_screen(HD);
    panel.point_count = 0;
    panel.open_image(square(64, 30));
    let mut control = DrawControl::new();
    let replay = panel.draw(&mut control).unwrap();
    assert_eq!(control, DrawControl { state: State::Drawing, active: true });
    assert_eq!(replay.actions, plan(&panel.generation.as_ref().unwrap().contours, 0));
    assert!(panel.draw(&mut control).is_none());
}

#[test]
fn tiny_rasters_extract_without_strokes() {
    for side in 1..4u32 {
        let g = extract(&solid(side, side, 200), 25, (3, 4));
        assert!(g.contours.is_empty());
        assert!(g.preview.is_some());
    }
    let mut panel = Panel::with_screen(HD);
    panel.open_image(square(64, 30));
    panel.set_area(0);
    let working = panel.resized_img.as_ref().unwrap();
    assert_eq!((working.width, working.height), (1, 1));
    assert_eq!(panel.center, (959, 539));
    assert!(panel.generation.as_ref().unwrap().contours.is_empty());
}

#[test]
fn wide_source_larger_than_screen() {
    assert_eq!(bounding_dimension(HD, 100, 2000, 1200, false), 1920);
    let (working, offset) = scale(&solid(2000, 1200, 30), HD, 100, false);
    assert_eq!((working.width, working.height), (1920, 1152));
    assert_eq!(offset, (0, -36));
}

#[test]
fn tall_source_at_half_area() {
    let (working, offset) = scale(&solid(1000, 2000, 30), HD, 50, false);
    assert_eq!((working.width, working.height), (270, 540));
    assert_eq!(offset, (825, 270));
}

#[test]
fn each_side_grows_with_area() {
    let src = solid(300, 170, 60);
    let mut last = (0, 0);
    for area in (0..=100).step_by(5) {
        let (working, _) = scale(&src, HD, area, true);
        assert!(working.width >= last.0 && working.height >= last.1);
        let expected = (170 * working.width + 150) / 300;
        assert!(working.height == expected.max(1));
        last = (working.width, working.height);
    }
}

#[test]
fn area_change_without_picture_keeps_derived_data() {
    let mut panel = Panel::with_screen(HD);
    panel.set_area(40);
    assert_eq!(panel.area, 40);
    assert!(panel.resized_img.is_none());
    assert!(panel.generation.is_none());
    assert_eq!(panel.center, (0, 0));
    panel.set_threshold(1);
    assert_eq!(panel.canny_value, 1);
    assert!(panel.generation.is_none());
}

#[test]
fn lowest_threshold_is_accepted() {
    let g = extract(&square(48, 20), 1, (0, 0));
    assert!(!g.contours.is_empty());
    let id = g.preview.unwrap().id;
    assert!(id.chars().all(|c| c == '_' || c == '-' || c.is_ascii_alphanumeric()));
}
