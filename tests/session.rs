use grab_core::capture::{CropRegion, DisplayInfo, ScaleFactor};
use grab_core::error::ScreenError;
use grab_core::geometry::Point;
use grab_core::raster::RasterImage;
use grab_core::session::{
    annotate, commit_capture, compute_offsets, draw_annotation, image_to_buffer, load_image, on_pointer_down,
    on_pointer_move, on_pointer_up, rescale_coordinates, reset_data, screen_all, Annotation, GrabData,
    PointerEvent, ScreenshotWidget, ShapeHint, WidgetAction,
};
use image::ImageEncoder;

fn p(x: i32, y: i32) -> Point {
    Point { x, y }
}

fn solid_png(w: u32, h: u32, px: [u8; 4]) -> Vec<u8> {
    let mut raw = Vec::new();
    for _ in 0..(w * h) {
        raw.extend_from_slice(&px);
    }
    let mut out = Vec::new();
    image::codecs::png::PngEncoder::new(&mut out)
        .write_image(&raw, w, h, image::ColorType::Rgba8)
        .unwrap();
    out
}

fn decode(bytes: &[u8]) -> image::RgbaImage {
    image::load_from_memory_with_format(bytes, image::ImageFormat::Png).unwrap().to_rgba8()
}

fn white_image(w: u32, h: u32) -> RasterImage {
    RasterImage { width: w, height: h, pixels: vec![255; (4 * w * h) as usize] }
}

fn px(img: &RasterImage, x: u32, y: u32) -> [u8; 4] {
    let i = 4 * (y as usize * img.width as usize + x as usize);
    [img.pixels[i], img.pixels[i + 1], img.pixels[i + 2], img.pixels[i + 3]]
}

const RED: (u8, u8, u8, u8) = (255, 0, 0, 255);

fn session_with(bytes: Vec<u8>, kind: Annotation, pts: Vec<Point>) -> GrabData {
    let mut d = GrabData::new(RED, 10, 20, 0);
    d.image_data_old = bytes;
    d.first_screen = false;
    d.annotation = kind;
    d.positions = pts;
    d
}

#[test]
fn reset_restores_defaults() {
    let mut d = GrabData::new((1, 2, 3, 4), 7, 9, 1);
    d.image_data_old = vec![1, 2];
    d.image_data_new = vec![3];
    d.press = true;
    d.first_screen = false;
    d.scale_factors = (ScaleFactor { captured: 3, displayed: 2 }, ScaleFactor { captured: 5, displayed: 4 });
    d.positions = vec![p(1, 1)];
    d.offsets = p(4, 5);
    d.annotation = Annotation::Arrow;
    d.text_annotation = "hello".to_string();
    reset_data(&mut d);
    assert!(d.image_data_old.is_empty() && d.image_data_new.is_empty());
    assert!(!d.press && d.first_screen);
    assert_eq!(d.scale_factors, (ScaleFactor::unit(), ScaleFactor::unit()));
    assert!(d.positions.is_empty());
    assert_eq!(d.offsets, p(0, 0));
    assert_eq!(d.annotation, Annotation::Selection);
    assert!(d.text_annotation.is_empty());
    assert_eq!((d.color, d.highlighter_width, d.text_size, d.monitor_index), ((1, 2, 3, 4), 7, 9, 1));
}

#[test]
fn screen_all_on_single_display() {
    let mut d = GrabData::new(RED, 10, 20, 0);
    let ds = vec![DisplayInfo { x: 0, y: 0, width: 1920, height: 1080 }];
    let caps = vec![solid_png(1920, 1080, [7, 8, 9, 255])];
    screen_all(100, 100, 500, 400, &ds, &caps, &mut d).unwrap();
    let img = decode(&d.image_data_old);
    assert_eq!(img.dimensions(), (396, 296));
    assert_eq!(img.get_pixel(0, 0).0, [7, 8, 9, 255]);
}

#[test]
fn screen_all_failure_leaves_session() {
    let mut d = GrabData::new(RED, 10, 20, 0);
    d.image_data_old = vec![42];
    let ds = vec![DisplayInfo { x: 0, y: 0, width: 100, height: 100 }];
    let caps = vec![solid_png(100, 100, [7, 8, 9, 255])];
    assert_eq!(screen_all(10, 10, 13, 50, &ds, &caps, &mut d), Err(ScreenError::EmptyOrInvertedSelection));
    assert_eq!(d.image_data_old, vec![42]);
    assert_eq!(screen_all(10, 10, 50, 50, &vec![], &vec![], &mut d), Err(ScreenError::NoDisplaysFound));
}

#[test]
fn commit_capture_reencodes_losslessly() {
    let mut d = GrabData::new(RED, 10, 20, 0);
    d.positions = vec![p(1, 1), p(5, 5)];
    let src = solid_png(6, 3, [1, 2, 3, 4]);
    commit_capture(&mut d, &src).unwrap();
    assert!(!d.first_screen);
    assert!(d.positions.is_empty());
    assert_eq!(decode(&d.image_data_old), decode(&src));
    // once more: decoding what was committed and committing it again changes nothing
    let first = d.image_data_old.clone();
    commit_capture(&mut d, &first).unwrap();
    assert_eq!(decode(&d.image_data_old), decode(&first));
}

#[test]
fn commit_capture_of_garbage_fails() {
    let mut d = GrabData::new(RED, 10, 20, 0);
    assert_eq!(commit_capture(&mut d, &vec![0, 1, 2, 3]), Err(ScreenError::DecodeFailed));
    assert!(d.first_screen);
}

#[test]
fn annotate_line_draws_on_current_image() {
    let mut d = session_with(solid_png(20, 20, [255, 255, 255, 255]), Annotation::Line, vec![p(0, 0), p(7, 3), p(19, 0)]);
    annotate(&mut d, ShapeHint::NoHint).unwrap();
    assert!(d.positions.is_empty());
    let img = decode(&d.image_data_new);
    assert_eq!(img.get_pixel(10, 0).0, [255, 0, 0, 255]);
    assert_eq!(img.get_pixel(10, 10).0, [255, 255, 255, 255]);
    // the intermediate position is not part of a straight line
    assert_eq!(img.get_pixel(7, 3).0, [255, 255, 255, 255]);
}

#[test]
fn annotate_prefers_the_working_image() {
    let mut d = session_with(solid_png(4, 4, [0, 0, 0, 255]), Annotation::Line, vec![p(0, 0), p(0, 0)]);
    d.image_data_new = solid_png(8, 8, [255, 255, 255, 255]);
    annotate(&mut d, ShapeHint::NoHint).unwrap();
    assert_eq!(decode(&d.image_data_new).dimensions(), (8, 8));
}

#[test]
fn annotate_without_positions_or_with_text_changes_nothing() {
    let mut d = session_with(solid_png(4, 4, [0, 0, 0, 255]), Annotation::Rectangle, vec![]);
    annotate(&mut d, ShapeHint::NoHint).unwrap();
    assert!(d.image_data_new.is_empty());
    let mut t = session_with(solid_png(4, 4, [0, 0, 0, 255]), Annotation::Text, vec![p(1, 1)]);
    annotate(&mut t, ShapeHint::NoHint).unwrap();
    assert!(t.image_data_new.is_empty());
    assert_eq!(t.positions, vec![p(1, 1)]);
}

#[test]
fn annotate_garbage_image_fails() {
    let mut d = session_with(vec![9, 9, 9], Annotation::Line, vec![p(0, 0), p(3, 3)]);
    assert_eq!(annotate(&mut d, ShapeHint::NoHint), Err(ScreenError::DecodeFailed));
    assert_eq!(d.positions.len(), 2);
}

#[test]
fn annotate_selection_crops() {
    let mut d = session_with(solid_png(50, 40, [1, 1, 1, 255]), Annotation::Selection, vec![p(30, 5), p(10, 25)]);
    annotate(&mut d, ShapeHint::NoHint).unwrap();
    assert_eq!(decode(&d.image_data_new).dimensions(), (20, 20));
}

#[test]
fn annotate_selection_that_cannot_crop_further() {
    let mut d = session_with(solid_png(50, 40, [1, 1, 1, 255]), Annotation::Selection, vec![p(-3, 5), p(10, 25)]);
    assert_eq!(annotate(&mut d, ShapeHint::NoHint), Err(ScreenError::EmptyOrInvertedSelection));
    let mut flat = session_with(solid_png(50, 40, [1, 1, 1, 255]), Annotation::Selection, vec![p(3, 5), p(10, 5)]);
    assert_eq!(annotate(&mut flat, ShapeHint::NoHint), Err(ScreenError::EmptyOrInvertedSelection));
    assert!(flat.image_data_new.is_empty());
}

#[test]
fn annotate_selection_outside_the_image_fails_to_encode() {
    let mut d = session_with(solid_png(10, 10, [1, 1, 1, 255]), Annotation::Selection, vec![p(500, 500), p(600, 600)]);
    assert_eq!(annotate(&mut d, ShapeHint::NoHint), Err(ScreenError::EncodeFailed));
    assert!(d.image_data_new.is_empty());
}

#[test]
fn rectangle_outline() {
    let img = white_image(20, 20);
    let out = draw_annotation(&img, Annotation::Rectangle, &vec![p(12, 15), p(2, 5)], ShapeHint::NoHint, RED).unwrap();
    assert_eq!(px(&out, 2, 5), [255, 0, 0, 255]);
    assert_eq!(px(&out, 11, 14), [255, 0, 0, 255]);
    assert_eq!(px(&out, 6, 9), [255, 255, 255, 255]);
    assert_eq!(
        draw_annotation(&img, Annotation::Rectangle, &vec![p(2, 5), p(2, 9)], ShapeHint::NoHint, RED).err(),
        Some(ScreenError::DegenerateGeometry)
    );
}

#[test]
fn circle_outline() {
    let img = white_image(40, 40);
    let out = draw_annotation(&img, Annotation::Circle, &vec![p(10, 10), p(30, 10 + 0)], ShapeHint::NoHint, RED).unwrap();
    // center (20, 10), radius 10
    assert_eq!(px(&out, 30, 10), [255, 0, 0, 255]);
    assert_eq!(px(&out, 20, 20), [255, 0, 0, 255]);
    assert_eq!(px(&out, 20, 10), [255, 255, 255, 255]);
}

#[test]
fn cross_draws_both_diagonals() {
    let img = white_image(11, 11);
    let out = draw_annotation(&img, Annotation::Cross, &vec![p(0, 0), p(10, 10)], ShapeHint::NoHint, RED).unwrap();
    assert_eq!(px(&out, 5, 5), [255, 0, 0, 255]);
    assert_eq!(px(&out, 0, 10), [255, 0, 0, 255]);
    assert_eq!(px(&out, 10, 0), [255, 0, 0, 255]);
    assert_eq!(px(&out, 0, 5), [255, 255, 255, 255]);
}

#[test]
fn free_line_follows_every_position() {
    let img = white_image(20, 20);
    let pts = vec![p(0, 0), p(10, 0), p(10, 10)];
    let out = draw_annotation(&img, Annotation::FreeLine, &pts, ShapeHint::NoHint, RED).unwrap();
    assert_eq!(px(&out, 5, 0), [255, 0, 0, 255]);
    assert_eq!(px(&out, 10, 5), [255, 0, 0, 255]);
    assert_eq!(px(&out, 5, 5), [255, 255, 255, 255]);
}

#[test]
fn highlighter_fills_translucent_band() {
    let img = white_image(20, 20);
    let hint = ShapeHint::HighlightQuad(p(2, 8), p(2, 12), p(17, 12), p(17, 8));
    let out = draw_annotation(&img, Annotation::Highlighter, &vec![p(2, 10), p(17, 10)], hint, RED).unwrap();
    assert_eq!(px(&out, 10, 10), [255, 0, 0, 60]);
    assert_eq!(px(&out, 10, 2), [255, 255, 255, 255]);
    let flat = ShapeHint::HighlightQuad(p(2, 8), p(2, 12), p(17, 12), p(2, 8));
    assert_eq!(
        draw_annotation(&img, Annotation::Highlighter, &vec![p(2, 10), p(17, 10)], flat, RED).err(),
        Some(ScreenError::DegenerateGeometry)
    );
    assert_eq!(
        draw_annotation(&img, Annotation::Highlighter, &vec![p(2, 10), p(17, 10)], ShapeHint::NoHint, RED).err(),
        Some(ScreenError::DegenerateGeometry)
    );
}

#[test]
fn arrow_draws_shaft_and_wings() {
    let img = white_image(30, 30);
    let hint = ShapeHint::ArrowWings(p(15, 5), p(15, 25));
    let out = draw_annotation(&img, Annotation::Arrow, &vec![p(0, 15), p(25, 15)], hint, RED).unwrap();
    assert_eq!(px(&out, 10, 15), [255, 0, 0, 255]);
    assert_eq!(px(&out, 15, 5), [255, 0, 0, 255]);
    assert_eq!(px(&out, 15, 25), [255, 0, 0, 255]);
    assert_eq!(
        draw_annotation(&img, Annotation::Arrow, &vec![p(5, 5), p(5, 5)], ShapeHint::NoHint, RED).err(),
        Some(ScreenError::DegenerateGeometry)
    );
}

#[test]
fn far_away_positions_are_refused() {
    let img = white_image(10, 10);
    assert_eq!(
        draw_annotation(&img, Annotation::Line, &vec![p(0, 0), p(i32::MAX, 0)], ShapeHint::NoHint, RED).err(),
        Some(ScreenError::CoordinatesOutOfRange)
    );
}

#[test]
fn pointer_drag_over_live_desktop() {
    let mut d = GrabData::new(RED, 10, 20, 0);
    on_pointer_move(&mut d, p(1, 1)).unwrap();
    assert!(d.positions.is_empty());
    on_pointer_down(&mut d, true, p(5, 5)).unwrap();
    assert!(d.press);
    on_pointer_move(&mut d, p(6, 7)).unwrap();
    on_pointer_move(&mut d, p(8, 9)).unwrap();
    on_pointer_up(&mut d);
    assert!(!d.press);
    assert_eq!(d.positions, vec![p(6, 7), p(8, 9)]);
}

#[test]
fn pointer_drag_over_captured_image_is_rescaled() {
    let mut d = GrabData::new(RED, 10, 20, 0);
    d.first_screen = false;
    d.offsets = p(100, 50);
    d.scale_factors = (ScaleFactor { captured: 2, displayed: 1 }, ScaleFactor { captured: 3, displayed: 2 });
    on_pointer_down(&mut d, true, p(0, 0)).unwrap();
    on_pointer_move(&mut d, p(110, 60)).unwrap();
    assert_eq!(d.positions, vec![p(20, 15)]);
    rescale_coordinates(&mut d, p(99, 49)).unwrap();
    assert_eq!(d.positions[1], p(-2, -2));
}

#[test]
fn text_mode_takes_the_press_position_only() {
    let mut d = GrabData::new(RED, 10, 20, 0);
    d.first_screen = false;
    d.annotation = Annotation::Text;
    on_pointer_down(&mut d, true, p(3, 4)).unwrap();
    on_pointer_move(&mut d, p(30, 40)).unwrap();
    assert_eq!(d.positions, vec![p(3, 4)]);
}

#[test]
fn rescale_beyond_i32_is_refused() {
    let mut d = GrabData::new(RED, 10, 20, 0);
    d.scale_factors = (ScaleFactor { captured: 4, displayed: 1 }, ScaleFactor::unit());
    assert_eq!(rescale_coordinates(&mut d, p(i32::MAX, 0)), Err(ScreenError::CoordinatesOutOfRange));
    assert!(d.positions.is_empty());
}

#[test]
fn offsets_center_the_image() {
    let mut d = GrabData::new(RED, 10, 20, 0);
    compute_offsets(&mut d, 1000, 800, 600, 400, 90, p(8, 30)).unwrap();
    assert_eq!(d.offsets, p(0, 0));
    d.first_screen = false;
    compute_offsets(&mut d, 1000, 800, 600, 400, 90, p(8, 30)).unwrap();
    // x: (1000 - 600) / 2 - 8; y: (800 - 90 - 400) / 2 - 30, rounded down
    assert_eq!(d.offsets, p(192, 125));
    compute_offsets(&mut d, 500, 800, 600, 400, 90, p(8, 30)).unwrap();
    assert_eq!(d.offsets, p(-50, 125));
}

#[test]
fn load_image_prefers_working_bytes() {
    let mut d = GrabData::new(RED, 10, 20, 0);
    assert_eq!(load_image(&d).err(), Some(ScreenError::DecodeFailed));
    d.image_data_old = solid_png(3, 2, [1, 2, 3, 4]);
    let img = load_image(&d).unwrap();
    assert_eq!((img.width, img.height), (3, 2));
    assert_eq!(px(&img, 2, 1), [1, 2, 3, 4]);
    d.image_data_new = solid_png(5, 5, [9, 9, 9, 9]);
    assert_eq!(load_image(&d).unwrap().width, 5);
}

#[test]
fn image_to_buffer_round_trips() {
    let img = white_image(4, 3);
    let bytes = image_to_buffer(&img).unwrap();
    assert_eq!(&bytes[..8], &[137, 80, 78, 71, 13, 10, 26, 10]);
    let back = decode(&bytes);
    assert_eq!(back.dimensions(), (4, 3));
    assert_eq!(back.into_raw(), img.pixels);
    let empty = RasterImage { width: 0, height: 3, pixels: vec![] };
    assert_eq!(image_to_buffer(&empty), Err(ScreenError::EncodeFailed));
}

#[test]
fn widget_first_drag_asks_for_capture() {
    let mut w = ScreenshotWidget;
    let mut d = GrabData::new(RED, 10, 20, 0);
    assert_eq!(w.event(&mut d, PointerEvent::Up { pixel_scale: ScaleFactor::unit() }), Ok(WidgetAction::Repaint));
    assert_eq!(w.event(&mut d, PointerEvent::Down { left_button: true, pos: p(40, 30) }), Ok(WidgetAction::Repaint));
    w.event(&mut d, PointerEvent::Move { pos: p(40, 30) }).unwrap();
    w.event(&mut d, PointerEvent::Move { pos: p(90, 10) }).unwrap();
    w.event(&mut d, PointerEvent::Move { pos: p(10, 70) }).unwrap();
    let hidpi = ScaleFactor { captured: 2, displayed: 1 };
    assert_eq!(
        w.event(&mut d, PointerEvent::Up { pixel_scale: hidpi }),
        Ok(WidgetAction::CaptureArea(CropRegion { x: 22, y: 62, width: 56, height: 76 }))
    );
    assert!(!d.press);
}

#[test]
fn widget_first_drag_too_narrow_is_refused() {
    let mut w = ScreenshotWidget;
    let mut d = GrabData::new(RED, 10, 20, 0);
    w.event(&mut d, PointerEvent::Down { left_button: true, pos: p(0, 0) }).unwrap();
    w.event(&mut d, PointerEvent::Move { pos: p(10, 10) }).unwrap();
    w.event(&mut d, PointerEvent::Move { pos: p(13, 80) }).unwrap();
    assert_eq!(
        w.event(&mut d, PointerEvent::Up { pixel_scale: ScaleFactor::unit() }),
        Err(ScreenError::EmptyOrInvertedSelection)
    );
    assert!(d.first_screen && d.image_data_old.is_empty());
}

#[test]
fn widget_later_drag_asks_for_commit() {
    let mut w = ScreenshotWidget;
    let mut d = GrabData::new(RED, 10, 20, 0);
    d.first_screen = false;
    d.annotation = Annotation::Line;
    w.event(&mut d, PointerEvent::Down { left_button: true, pos: p(0, 0) }).unwrap();
    w.event(&mut d, PointerEvent::Move { pos: p(5, 5) }).unwrap();
    assert_eq!(w.event(&mut d, PointerEvent::Up { pixel_scale: ScaleFactor::unit() }), Ok(WidgetAction::Commit));
    d.annotation = Annotation::Text;
    assert_eq!(w.event(&mut d, PointerEvent::Up { pixel_scale: ScaleFactor::unit() }), Ok(WidgetAction::Repaint));
}

#[test]
fn screen_all_reports_first_failing_capture() {
    let mut d = GrabData::new(RED, 10, 20, 0);
    let ds = vec![
        DisplayInfo { x: 0, y: 0, width: 4, height: 4 },
        DisplayInfo { x: 4, y: 0, width: 4, height: 4 },
        DisplayInfo { x: 8, y: 0, width: 4, height: 4 },
    ];
    let caps = vec![solid_png(4, 4, [1, 1, 1, 255]), vec![0, 0], vec![1]];
    assert_eq!(
        screen_all(0, 0, 12, 4, &ds, &caps, &mut d),
        Err(ScreenError::CaptureFailed { display_index: 1 })
    );
    assert!(d.image_data_old.is_empty());
}

#[test]
fn screen_all_on_two_displays_keeps_their_places() {
    let mut d = GrabData::new(RED, 10, 20, 0);
    let ds = vec![
        DisplayInfo { x: 0, y: 0, width: 1920, height: 1080 },
        DisplayInfo { x: 1920, y: 0, width: 1280, height: 1024 },
    ];
    let caps = vec![solid_png(1920, 1080, [10, 20, 30, 255]), solid_png(1280, 1024, [200, 100, 50, 255])];
    screen_all(-2, -2, 3202, 1082, &ds, &caps, &mut d).unwrap();
    let img = decode(&d.image_data_old);
    assert_eq!(img.dimensions(), (3200, 1080));
    assert_eq!(img.get_pixel(1919, 0).0, [10, 20, 30, 255]);
    assert_eq!(img.get_pixel(1920, 0).0, [200, 100, 50, 255]);
    assert_eq!(img.get_pixel(3000, 1050).0, [0, 0, 0, 0]);
}
