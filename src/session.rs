//! The state of one capture-and-annotate interaction, and the steps that
//! pointer events and commits drive through it.

use crate::capture::{
    crop_region, canvas_fits, composed, composite_displays, composite_ok, crop_to_selection, first_failed_capture, floor_div, union_of, selection_region, region_nonempty, sat_u32,
    to_capture, to_capture_coordinate, CropRegion, DisplayInfo, ScaleFactor,
};
use crate::error::ScreenError;
use crate::geometry::{
    circle_radius_of, compute_circle_center_radius, make_rectangle_from_points, rect_of_endpoints,
    CircleShape, Point, Rect,
};
use crate::raster::{
    crop_image, cropped, decode_png, draw_circle, draw_filled_polygon, draw_line, draw_rect,
    drawable, encode_png, hollow_circle_drawn, hollow_rect_drawn, line_drawn, png_decoded,
    png_encoded, polygon_drawn, starts_with_png_signature, Pixmap, RasterImage, DRAW_LIMIT,
};
use vstd::prelude::*;

verus! {

/// Width of the selection outline, in pixels, left out of a crop.
pub const BORDER_WIDTH: u32 = 2;

/// Alpha of the highlighter's translucent fill.
pub const HIGHLIGHTER_ALPHA: u8 = 60;

/// Which shape the pointer positions feed.
#[derive(Clone, Copy, Debug, PartialEq, Eq, Structural)]
pub enum Annotation {
    /// No shape: the drag selects a region to crop to.
    Selection,
    Rectangle,
    Circle,
    Line,
    Cross,
    FreeLine,
    Highlighter,
    Arrow,
    Text,
}

/// Geometry that is worked out in floating point outside this library and
/// handed in as pixel positions: the arrow's two wing ends, or the
/// highlighter band's four corners.
#[derive(Clone, Copy, Debug, PartialEq, Eq, Structural)]
pub enum ShapeHint {
    NoHint,
    ArrowWings(Point, Point),
    HighlightQuad(Point, Point, Point, Point),
}

/// The session record.
pub struct GrabData {
    /// Most recently committed PNG image.
    pub image_data_old: Vec<u8>,
    /// Result of the last annotate pass; when non-empty it is the current image.
    pub image_data_new: Vec<u8>,
    /// The pointer button is held down.
    pub press: bool,
    /// No capture has been committed yet.
    pub first_screen: bool,
    /// Captured pixels per displayed pixel, horizontally and vertically.
    pub scale_factors: (ScaleFactor, ScaleFactor),
    /// Pointer positions of the shape in progress.
    pub positions: Vec<Point>,
    /// Where the displayed image's corner stands in the widget.
    pub offsets: Point,
    pub annotation: Annotation,
    pub color: (u8, u8, u8, u8),
    pub highlighter_width: u32,
    pub text_size: u32,
    pub monitor_index: usize,
    pub text_annotation: String,
}

impl GrabData {
    pub open spec fn wf(&self) -> bool {
        self.scale_factors.0.wf() && self.scale_factors.1.wf()
    }

    /// The bytes of the image that is current: the annotated one if there is
    /// one, else the committed one.
    pub open spec fn current_image(&self) -> Seq<u8> {
        if self.image_data_new@.len() > 0 {
            self.image_data_new@
        } else {
            self.image_data_old@
        }
    }

    /// A fresh session with the given presentation settings.
    pub fn new(color: (u8, u8, u8, u8), highlighter_width: u32, text_size: u32, monitor_index: usize) -> (r: GrabData)
        ensures
            r.wf(),
            r.is_reset(),
            r.color == color,
            r.highlighter_width == highlighter_width,
            r.text_size == text_size,
            r.monitor_index == monitor_index,
    {
        GrabData {
            image_data_old: Vec::new(),
            image_data_new: Vec::new(),
            press: false,
            first_screen: true,
            scale_factors: (ScaleFactor::unit(), ScaleFactor::unit()),
            positions: Vec::new(),
            offsets: Point { x: 0, y: 0 },
            annotation: Annotation::Selection,
            color,
            highlighter_width,
            text_size,
            monitor_index,
            text_annotation: String::new(),
        }
    }

    /// The defaults a session starts from.
    pub open spec fn is_reset(&self) -> bool {
        &&& self.image_data_old@.len() == 0
        &&& self.image_data_new@.len() == 0
        &&& !self.press
        &&& self.first_screen
        &&& self.scale_factors.0 == ScaleFactor { captured: 1, displayed: 1 }
        &&& self.scale_factors.1 == ScaleFactor { captured: 1, displayed: 1 }
        &&& self.positions@.len() == 0
        &&& self.offsets == Point { x: 0, y: 0 }
        &&& self.annotation == Annotation::Selection
        &&& self.text_annotation@.len() == 0
    }

    /// Settings that a reset keeps.
    pub open spec fn same_settings(&self, o: &GrabData) -> bool {
        &&& self.color == o.color
        &&& self.highlighter_width == o.highlighter_width
        &&& self.text_size == o.text_size
        &&& self.monitor_index == o.monitor_index
    }

    /// Everything but the image bytes, the positions and the first-capture
    /// flag is as in `o`.
    pub open spec fn same_but_images(&self, o: &GrabData) -> bool {
        &&& self.same_settings(o)
        &&& self.press == o.press
        &&& self.scale_factors == o.scale_factors
        &&& self.offsets == o.offsets
        &&& self.annotation == o.annotation
        &&& self.text_annotation@ == o.text_annotation@
    }

    /// Nothing observable differs from `o`.
    pub open spec fn unchanged_from(&self, o: &GrabData) -> bool {
        &&& self.same_but_images(o)
        &&& self.image_data_old@ == o.image_data_old@
        &&& self.image_data_new@ == o.image_data_new@
        &&& self.positions@ == o.positions@
        &&& self.first_screen == o.first_screen
    }
}

/// Returns the session to its defaults, keeping the color, the shape sizes
/// and the monitor choice.
pub fn reset_data(data: &mut GrabData)
    ensures
        final(data).wf(),
        final(data).is_reset(),
        final(data).same_settings(old(data)),
{
    data.image_data_old = Vec::new();
    data.image_data_new = Vec::new();
    data.press = false;
    data.first_screen = true;
    data.scale_factors = (ScaleFactor::unit(), ScaleFactor::unit());
    data.positions = Vec::new();
    data.offsets = Point { x: 0, y: 0 };
    data.annotation = Annotation::Selection;
    data.text_annotation = String::new();
}

/// Half the diagonal of a `dx`×`dy` box, rounded down.
pub open spec fn half_diagonal(dx: int, dy: int) -> int {
    choose|k: int| circle_radius_of(dx, dy, k)
}

proof fn lemma_half_diagonal(dx: int, dy: int, k: int)
    requires
        circle_radius_of(dx, dy, k),
    ensures
        half_diagonal(dx, dy) == k,
{
    let j = half_diagonal(dx, dy);
    assert(circle_radius_of(dx, dy, j));
    let d = dx * dx + dy * dy;
    if j < k {
        assert(4 * (j + 1) * (j + 1) <= 4 * k * k) by (nonlinear_arith)
            requires 0 <= j, j + 1 <= k;
    } else if k < j {
        assert(4 * (k + 1) * (k + 1) <= 4 * j * j) by (nonlinear_arith)
            requires 0 <= k, k + 1 <= j;
    }
}

/// The circle drawn for the rectangle `r`.
pub open spec fn circle_of(r: Rect) -> (Point, int) {
    (
        Point { x: (r.min_x + (r.max_x - r.min_x) / 2) as i32, y: (r.min_y + (r.max_y - r.min_y) / 2) as i32 },
        half_diagonal(r.max_x - r.min_x, r.max_y - r.min_y),
    )
}

pub open spec fn all_drawable(pts: Seq<Point>) -> bool {
    forall|i: int| 0 <= i < pts.len() ==> drawable(#[trigger] pts[i])
}

/// `img` with a segment drawn between each pair of consecutive positions
/// among the first `n`.
pub open spec fn polyline(img: Pixmap, pts: Seq<Point>, color: (u8, u8, u8, u8), n: nat) -> Pixmap
    decreases n,
{
    if n <= 1 {
        img
    } else {
        line_drawn(polyline(img, pts, color, (n - 1) as nat), pts[n - 2], pts[n - 1], color)
    }
}

/// What committing the positions `pts` (at least one) as a shape of kind
/// `kind` does to the image `img`.
pub open spec fn shape_drawn(
    kind: Annotation,
    img: Pixmap,
    pts: Seq<Point>,
    hint: ShapeHint,
    color: (u8, u8, u8, u8),
) -> Result<Pixmap, ScreenError> {
    let a = pts[0];
    let z = pts.last();
    let r = rect_of_endpoints(a, z);
    let w = r.max_x - r.min_x;
    let h = r.max_y - r.min_y;
    match kind {
        Annotation::Selection => {
            if r.min_x < 0 || r.min_y < 0 || w <= 0 || h <= 0 {
                Err(ScreenError::EmptyOrInvertedSelection)
            } else {
                Ok(cropped(img, r.min_x as nat, r.min_y as nat, w as nat, h as nat))
            }
        },
        Annotation::Text => Ok(img),
        Annotation::FreeLine => {
            if all_drawable(pts) {
                Ok(polyline(img, pts, color, pts.len()))
            } else {
                Err(ScreenError::CoordinatesOutOfRange)
            }
        },
        Annotation::Highlighter => match hint {
            ShapeHint::HighlightQuad(p1, p2, p3, p4) => {
                if !(drawable(p1) && drawable(p2) && drawable(p3) && drawable(p4)) {
                    Err(ScreenError::CoordinatesOutOfRange)
                } else if p1 == p4 {
                    Err(ScreenError::DegenerateGeometry)
                } else if img.width == 0 || img.height == 0 {
                    Ok(img)
                } else if img.width >= 0x8000_0000 || img.height >= 0x8000_0000 {
                    Err(ScreenError::CoordinatesOutOfRange)
                } else {
                    Ok(polygon_drawn(img, seq![p1, p2, p3, p4], (color.0, color.1, color.2, HIGHLIGHTER_ALPHA)))
                }
            },
            _ => Err(ScreenError::DegenerateGeometry),
        },
        _ => {
            if !(drawable(a) && drawable(z)) {
                Err(ScreenError::CoordinatesOutOfRange)
            } else {
                match kind {
                    Annotation::Rectangle => {
                        if w == 0 || h == 0 {
                            Err(ScreenError::DegenerateGeometry)
                        } else {
                            Ok(hollow_rect_drawn(img, Point { x: r.min_x, y: r.min_y }, w as nat, h as nat, color))
                        }
                    },
                    Annotation::Circle => Ok(hollow_circle_drawn(img, circle_of(r).0, circle_of(r).1, color)),
                    Annotation::Line => Ok(line_drawn(img, a, z, color)),
                    Annotation::Cross => Ok(
                        line_drawn(line_drawn(img, a, z, color), Point { x: a.x, y: z.y }, Point { x: z.x, y: a.y }, color),
                    ),
                    Annotation::Arrow => match hint {
                        ShapeHint::ArrowWings(w1, w2) => {
                            if drawable(w1) && drawable(w2) {
                                Ok(line_drawn(line_drawn(line_drawn(img, a, z, color), z, w1, color), z, w2, color))
                            } else {
                                Err(ScreenError::CoordinatesOutOfRange)
                            }
                        },
                        _ => Err(ScreenError::DegenerateGeometry),
                    },
                    _ => Ok(img),
                }
            }
        },
    }
}

fn is_drawable(p: Point) -> (r: bool)
    ensures
        r == drawable(p),
{
    -DRAW_LIMIT <= p.x && p.x <= DRAW_LIMIT && -DRAW_LIMIT <= p.y && p.y <= DRAW_LIMIT
}

fn check_all_drawable(pts: &Vec<Point>) -> (r: bool)
    ensures
        r == all_drawable(pts@),
{
    let mut i: usize = 0;
    while i < pts.len()
        invariant
            0 <= i <= pts@.len(),
            forall|j: int| 0 <= j < i ==> drawable(#[trigger] pts@[j]),
        decreases pts@.len() - i,
    {
        if !is_drawable(pts[i]) {
            return false;
        }
        i += 1;
    }
    true
}

/// Draws the shape of kind `kind` given by `pts` on a copy of `img`.
pub fn draw_annotation(
    img: &RasterImage,
    kind: Annotation,
    pts: &Vec<Point>,
    hint: ShapeHint,
    color: (u8, u8, u8, u8),
) -> (r: Result<RasterImage, ScreenError>)
    requires
        img.wf(),
        pts@.len() >= 1,
    ensures
        match r {
            Ok(o) => o.wf() && shape_drawn(kind, img@, pts@, hint, color) == Ok::<Pixmap, ScreenError>(o@),
            Err(e) => shape_drawn(kind, img@, pts@, hint, color) == Err::<Pixmap, ScreenError>(e),
        },
{
    let a = pts[0];
    let z = pts[pts.len() - 1];
    let rect = match make_rectangle_from_points(pts) {
        Some(rect) => rect,
        None => {
            return Err(ScreenError::DegenerateGeometry);
        },
    };
    let w: i64 = rect.max_x as i64 - rect.min_x as i64;
    let h: i64 = rect.max_y as i64 - rect.min_y as i64;
    match kind {
        Annotation::Selection => {
            if rect.min_x < 0 || rect.min_y < 0 || w <= 0 || h <= 0 {
                return Err(ScreenError::EmptyOrInvertedSelection);
            }
            return Ok(crop_image(img, rect.min_x as u32, rect.min_y as u32, w as u32, h as u32));
        },
        Annotation::Text => {
            return Ok(img.clone_image());
        },
        Annotation::FreeLine => {
            if !check_all_drawable(pts) {
                return Err(ScreenError::CoordinatesOutOfRange);
            }
            let mut cur = img.clone_image();
            let mut i: usize = 1;
            while i < pts.len()
                invariant
                    1 <= i <= pts@.len(),
                    all_drawable(pts@),
                    cur.wf(),
                    cur@ == polyline(img@, pts@, color, i as nat),
                decreases pts@.len() - i,
            {
                assert(drawable(pts@[i - 1]) && drawable(pts@[i as int]));
                cur = draw_line(&cur, pts[i - 1], pts[i], color);
                i += 1;
            }
            return Ok(cur);
        },
        Annotation::Highlighter => {
            match hint {
                ShapeHint::HighlightQuad(p1, p2, p3, p4) => {
                    if !(is_drawable(p1) && is_drawable(p2) && is_drawable(p3) && is_drawable(p4)) {
                        return Err(ScreenError::CoordinatesOutOfRange);
                    }
                    if p1 == p4 {
                        return Err(ScreenError::DegenerateGeometry);
                    }
                    if img.width == 0 || img.height == 0 {
                        return Ok(img.clone_image());
                    }
                    if img.width >= 0x8000_0000 || img.height >= 0x8000_0000 {
                        return Err(ScreenError::CoordinatesOutOfRange);
                    }
                    let corners: Vec<Point> = vec![p1, p2, p3, p4];
                    assert(corners@ == seq![p1, p2, p3, p4]);
                    let fill = (color.0, color.1, color.2, HIGHLIGHTER_ALPHA);
                    return Ok(draw_filled_polygon(img, &corners, fill));
                },
                _ => {
                    return Err(ScreenError::DegenerateGeometry);
                },
            }
        },
        _ => {},
    }
    if !(is_drawable(a) && is_drawable(z)) {
        return Err(ScreenError::CoordinatesOutOfRange);
    }
    match kind {
        Annotation::Rectangle => {
            if w == 0 || h == 0 {
                return Err(ScreenError::DegenerateGeometry);
            }
            Ok(draw_rect(img, Point { x: rect.min_x, y: rect.min_y }, w as u32, h as u32, color))
        },
        Annotation::Circle => {
            let c: CircleShape = compute_circle_center_radius(rect.min_x, rect.min_y, rect.max_x, rect.max_y);
            proof {
                lemma_half_diagonal(w as int, h as int, c.radius as int);
                let ri = c.radius as int;
                assert(ri <= 4 * DRAW_LIMIT) by (nonlinear_arith)
                    requires
                        0 <= ri,
                        4 * ri * ri <= w * w + h * h,
                        0 <= w <= 2 * DRAW_LIMIT,
                        0 <= h <= 2 * DRAW_LIMIT,
                        DRAW_LIMIT == 16_777_216;
            }
            Ok(draw_circle(img, c.center, c.radius as i32, color))
        },
        Annotation::Line => Ok(draw_line(img, a, z, color)),
        Annotation::Cross => {
            let first = draw_line(img, a, z, color);
            Ok(draw_line(&first, Point { x: a.x, y: z.y }, Point { x: z.x, y: a.y }, color))
        },
        Annotation::Arrow => {
            match hint {
                ShapeHint::ArrowWings(w1, w2) => {
                    if !(is_drawable(w1) && is_drawable(w2)) {
                        return Err(ScreenError::CoordinatesOutOfRange);
                    }
                    let main = draw_line(img, a, z, color);
                    let one = draw_line(&main, z, w1, color);
                    Ok(draw_line(&one, z, w2, color))
                },
                _ => Err(ScreenError::DegenerateGeometry),
            }
        },
        _ => Ok(img.clone_image()),
    }
}

/// Decodes the session's current image.
pub fn load_image(data: &GrabData) -> (r: Result<RasterImage, ScreenError>)
    ensures
        r is Ok <==> png_decoded(data.current_image()) is Some,
        r matches Ok(img) ==> img.wf() && png_decoded(data.current_image()) == Some(img@),
        r matches Err(e) ==> e == ScreenError::DecodeFailed,
{
    let decoded = if data.image_data_new.len() > 0 {
        decode_png(&data.image_data_new)
    } else {
        decode_png(&data.image_data_old)
    };
    match decoded {
        Some(img) => Ok(img),
        None => Err(ScreenError::DecodeFailed),
    }
}

/// Encodes an image as PNG.
pub fn image_to_buffer(image: &RasterImage) -> (r: Result<Vec<u8>, ScreenError>)
    requires
        image.wf(),
    ensures
        r is Ok <==> png_encoded(image@) is Some,
        r matches Ok(b) ==> png_encoded(image@) == Some(b@),
        r matches Ok(b) ==> (image@.small() ==> png_decoded(b@) == Some(image@)),
        r matches Ok(b) ==> starts_with_png_signature(b@),
        r matches Err(e) ==> e == ScreenError::EncodeFailed,
{
    match encode_png(image) {
        Some(b) => Ok(b),
        None => Err(ScreenError::EncodeFailed),
    }
}

/// What a commit of the positions as the active shape comes to: `Ok(None)`
/// when nothing is drawn (no positions, or text, whose anchor waits for its
/// text), `Ok(Some(bytes))` for the new current image, or the failure.
pub open spec fn annotate_outcome(d: GrabData, hint: ShapeHint) -> Result<Option<Seq<u8>>, ScreenError> {
    if d.positions@.len() == 0 || d.annotation == Annotation::Text {
        Ok(None)
    } else {
        match png_decoded(d.current_image()) {
            None => Err(ScreenError::DecodeFailed),
            Some(img) => match shape_drawn(d.annotation, img, d.positions@, hint, d.color) {
                Err(e) => Err(e),
                Ok(out) => match png_encoded(out) {
                    None => Err(ScreenError::EncodeFailed),
                    Some(bytes) => Ok(Some(bytes)),
                },
            },
        }
    }
}

/// The image a successful commit of the positions stores.
pub open spec fn drawn_image(d: GrabData, hint: ShapeHint) -> Pixmap {
    let img = png_decoded(d.current_image()).unwrap();
    match shape_drawn(d.annotation, img, d.positions@, hint, d.color) {
        Ok(out) => out,
        Err(_) => img,
    }
}

/// Commits the positions as the active shape on the current image: the
/// drawn image becomes the current one and the positions are cleared. On
/// failure the session is left as it was.
pub fn annotate(data: &mut GrabData, hint: ShapeHint) -> (r: Result<(), ScreenError>)
    requires
        old(data).wf(),
    ensures
        final(data).wf(),
        match annotate_outcome(*old(data), hint) {
            Ok(None) => r is Ok && final(data).unchanged_from(old(data)),
            Ok(Some(bytes)) => r is Ok && final(data).same_but_images(old(data))
                && final(data).image_data_new@ == bytes
                && (drawn_image(*old(data), hint).small() ==> png_decoded(bytes) == Some(drawn_image(*old(data), hint)))
                && final(data).image_data_old@ == old(data).image_data_old@
                && final(data).positions@.len() == 0
                && final(data).first_screen == old(data).first_screen,
            Err(e) => r == Err::<(), ScreenError>(e) && final(data).unchanged_from(old(data)),
        },
{
    if data.positions.len() == 0 || data.annotation == Annotation::Text {
        return Ok(());
    }
    let img = load_image(data)?;
    let out = draw_annotation(&img, data.annotation, &data.positions, hint, data.color)?;
    let bytes = image_to_buffer(&out)?;
    data.image_data_new = bytes;
    data.positions = Vec::new();
    Ok(())
}

/// Commits a fresh capture: the PNG is decoded and encoded again, stored as
/// the committed image, and the session leaves its first-capture state. On a
/// failure the session is left as it was.
pub fn commit_capture(data: &mut GrabData, png: &Vec<u8>) -> (r: Result<(), ScreenError>)
    requires
        old(data).wf(),
    ensures
        final(data).wf(),
        r is Ok <==> png_decoded(png@) is Some && png_encoded(png_decoded(png@).unwrap()) is Some,
        r matches Err(e) ==> final(data).unchanged_from(old(data)) && (e == ScreenError::DecodeFailed
            || e == ScreenError::EncodeFailed),
        r is Ok ==> {
            &&& final(data).same_but_images(old(data))
            &&& final(data).image_data_old@ == png_encoded(png_decoded(png@).unwrap()).unwrap()
            &&& final(data).image_data_new@ == old(data).image_data_new@
            &&& final(data).positions@.len() == 0
            &&& !final(data).first_screen
            &&& png_decoded(png@).unwrap().small() ==> png_decoded(final(data).image_data_old@) == png_decoded(png@)
        },
{
    let img = match decode_png(png) {
        Some(img) => img,
        None => {
            return Err(ScreenError::DecodeFailed);
        },
    };
    let bytes = image_to_buffer(&img)?;
    data.image_data_old = bytes;
    data.positions = Vec::new();
    data.first_screen = false;
    Ok(())
}

/// The committed image that capturing the displays and cropping to `sel`
/// gives: the composite of the captures, cut to the selection as mapped by
/// the session's offsets and scale factors, inset by the border.
pub open spec fn grabbed_image(d: GrabData, sel: Rect, ds: Seq<DisplayInfo>, caps: Seq<Seq<u8>>) -> Pixmap {
    let canvas = composed(ds, caps, union_of(ds), ds.len());
    let c = selection_region(sel, d.offsets, d.scale_factors.0, d.scale_factors.1, BORDER_WIDTH);
    cropped(canvas, sat_u32(c.0), sat_u32(c.1), sat_u32(c.2), sat_u32(c.3))
}

/// Captures every display into one canvas, crops it to the selection and
/// commits the PNG of the result. On a failure the session is left as it was.
pub fn screen_all(
    min_x_grab: i32,
    min_y_grab: i32,
    max_x_grab: i32,
    max_y_grab: i32,
    displays: &Vec<DisplayInfo>,
    captures: &Vec<Vec<u8>>,
    data: &mut GrabData,
) -> (r: Result<(), ScreenError>)
    requires
        old(data).wf(),
        displays@.len() == captures@.len(),
    ensures
        final(data).wf(),
        r is Err ==> final(data).unchanged_from(old(data)),
        displays@.len() == 0 ==> r == Err::<(), ScreenError>(ScreenError::NoDisplaysFound),
        displays@.len() > 0 && !canvas_fits(union_of(displays@))
            ==> r == Err::<(), ScreenError>(ScreenError::CanvasTooLarge),
        displays@.len() > 0 && canvas_fits(union_of(displays@))
            && !composite_ok(displays@, captures@.map_values(|c: Vec<u8>| c@))
            ==> (r matches Err(ScreenError::CaptureFailed { .. })),
        r matches Err(ScreenError::CaptureFailed { display_index: i }) ==> first_failed_capture(
            displays@, captures@.map_values(|c: Vec<u8>| c@), union_of(displays@), i as int),
        composite_ok(displays@, captures@.map_values(|c: Vec<u8>| c@)) && !region_nonempty(
            selection_region(
                Rect { min_x: min_x_grab, min_y: min_y_grab, max_x: max_x_grab, max_y: max_y_grab },
                old(data).offsets,
                old(data).scale_factors.0,
                old(data).scale_factors.1,
                BORDER_WIDTH,
            ),
        ) ==> r == Err::<(), ScreenError>(ScreenError::EmptyOrInvertedSelection),
        composite_ok(displays@, captures@.map_values(|c: Vec<u8>| c@)) && region_nonempty(
            selection_region(
                Rect { min_x: min_x_grab, min_y: min_y_grab, max_x: max_x_grab, max_y: max_y_grab },
                old(data).offsets,
                old(data).scale_factors.0,
                old(data).scale_factors.1,
                BORDER_WIDTH,
            ),
        ) && r is Err ==> r == Err::<(), ScreenError>(ScreenError::EncodeFailed),
        r is Ok <==> ({
            let sel = Rect { min_x: min_x_grab, min_y: min_y_grab, max_x: max_x_grab, max_y: max_y_grab };
            &&& composite_ok(displays@, captures@.map_values(|c: Vec<u8>| c@))
            &&& region_nonempty(selection_region(sel, old(data).offsets, old(data).scale_factors.0,
                old(data).scale_factors.1, BORDER_WIDTH))
            &&& png_encoded(grabbed_image(*old(data), sel, displays@, captures@.map_values(|c: Vec<u8>| c@))) is Some
        }),
        !region_nonempty(
            selection_region(
                Rect { min_x: min_x_grab, min_y: min_y_grab, max_x: max_x_grab, max_y: max_y_grab },
                old(data).offsets,
                old(data).scale_factors.0,
                old(data).scale_factors.1,
                BORDER_WIDTH,
            ),
        ) ==> r is Err,
        r is Ok ==> {
            &&& final(data).same_but_images(old(data))
            &&& final(data).image_data_new@ == old(data).image_data_new@
            &&& final(data).positions@ == old(data).positions@
            &&& final(data).first_screen == old(data).first_screen
            &&& png_encoded(
                grabbed_image(
                    *old(data),
                    Rect { min_x: min_x_grab, min_y: min_y_grab, max_x: max_x_grab, max_y: max_y_grab },
                    displays@,
                    captures@.map_values(|c: Vec<u8>| c@),
                ),
            ) == Some(final(data).image_data_old@)
            &&& ({
                let g = grabbed_image(
                    *old(data),
                    Rect { min_x: min_x_grab, min_y: min_y_grab, max_x: max_x_grab, max_y: max_y_grab },
                    displays@,
                    captures@.map_values(|c: Vec<u8>| c@),
                );
                g.small() ==> png_decoded(final(data).image_data_old@) == Some(g)
            })
        },
{
    let sel = Rect { min_x: min_x_grab, min_y: min_y_grab, max_x: max_x_grab, max_y: max_y_grab };
    let canvas = composite_displays(displays, captures)?;
    let part = crop_to_selection(&canvas, sel, data.offsets, data.scale_factors.0, data.scale_factors.1, BORDER_WIDTH)?;
    let bytes = image_to_buffer(&part)?;
    data.image_data_old = bytes;
    Ok(())
}

/// The capture-space position of widget position `pos` under the
/// session's offsets and scale factors.
pub open spec fn rescaled(d: GrabData, pos: Point) -> (int, int) {
    (
        to_capture(pos.x as int, d.offsets.x as int, d.scale_factors.0),
        to_capture(pos.y as int, d.offsets.y as int, d.scale_factors.1),
    )
}

pub open spec fn fits_i32(v: int) -> bool {
    i32::MIN <= v <= i32::MAX
}

/// Records widget position `pos` as a position in the displayed image's
/// capture pixels. A position beyond the range of `i32` is refused and the
/// session is left as it was.
pub fn rescale_coordinates(data: &mut GrabData, pos: Point) -> (r: Result<(), ScreenError>)
    requires
        old(data).wf(),
    ensures
        final(data).wf(),
        r is Ok <==> fits_i32(rescaled(*old(data), pos).0) && fits_i32(rescaled(*old(data), pos).1),
        r matches Err(e) ==> e == ScreenError::CoordinatesOutOfRange && final(data).unchanged_from(old(data)),
        r is Ok ==> final(data).same_but_images(old(data))
            && final(data).image_data_old@ == old(data).image_data_old@
            && final(data).image_data_new@ == old(data).image_data_new@
            && final(data).first_screen == old(data).first_screen
            && final(data).positions@ == old(data).positions@.push(
                Point { x: rescaled(*old(data), pos).0 as i32, y: rescaled(*old(data), pos).1 as i32 },
            ),
{
    let x = to_capture_coordinate(pos.x, data.offsets.x, data.scale_factors.0);
    let y = to_capture_coordinate(pos.y, data.offsets.y, data.scale_factors.1);
    if x < i32::MIN as i128 || x > i32::MAX as i128 || y < i32::MIN as i128 || y > i32::MAX as i128 {
        return Err(ScreenError::CoordinatesOutOfRange);
    }
    data.positions.push(Point { x: x as i32, y: y as i32 });
    Ok(())
}

/// Pointer pressed at widget position `pos`. A left press starts a drag; in
/// text mode the press itself records the text's anchor.
pub fn on_pointer_down(data: &mut GrabData, left_button: bool, pos: Point) -> (r: Result<(), ScreenError>)
    requires
        old(data).wf(),
    ensures
        final(data).wf(),
        final(data).press == (old(data).press || left_button),
        final(data).same_settings(old(data)),
        final(data).annotation == old(data).annotation,
        final(data).first_screen == old(data).first_screen,
        final(data).image_data_old@ == old(data).image_data_old@,
        final(data).image_data_new@ == old(data).image_data_new@,
        old(data).annotation != Annotation::Text ==> r is Ok && final(data).positions@ == old(data).positions@,
        old(data).annotation == Annotation::Text ==> (r is Ok <==> fits_i32(rescaled(*old(data), pos).0)
            && fits_i32(rescaled(*old(data), pos).1)),
        old(data).annotation == Annotation::Text && r is Ok ==> final(data).positions@ == old(data).positions@.push(
            Point { x: rescaled(*old(data), pos).0 as i32, y: rescaled(*old(data), pos).1 as i32 },
        ),
        r is Err ==> final(data).positions@ == old(data).positions@,
{
    if left_button {
        data.press = true;
    }
    if data.annotation == Annotation::Text {
        rescale_coordinates(data, pos)
    } else {
        Ok(())
    }
}

/// Pointer moved to widget position `pos`. While a drag is held the position
/// is recorded: as it is over the live desktop, in capture pixels over a
/// captured image. Text mode records nothing on moves.
pub fn on_pointer_move(data: &mut GrabData, pos: Point) -> (r: Result<(), ScreenError>)
    requires
        old(data).wf(),
    ensures
        final(data).wf(),
        final(data).same_but_images(old(data)),
        final(data).first_screen == old(data).first_screen,
        final(data).image_data_old@ == old(data).image_data_old@,
        final(data).image_data_new@ == old(data).image_data_new@,
        (old(data).annotation == Annotation::Text || !old(data).press) ==> r is Ok
            && final(data).positions@ == old(data).positions@,
        (old(data).annotation != Annotation::Text && old(data).press && old(data).first_screen) ==> r is Ok
            && final(data).positions@ == old(data).positions@.push(pos),
        (old(data).annotation != Annotation::Text && old(data).press && !old(data).first_screen) ==> {
            &&& (r is Ok <==> fits_i32(rescaled(*old(data), pos).0) && fits_i32(rescaled(*old(data), pos).1))
            &&& r is Ok ==> final(data).positions@ == old(data).positions@.push(
                Point { x: rescaled(*old(data), pos).0 as i32, y: rescaled(*old(data), pos).1 as i32 },
            )
            &&& r is Err ==> final(data).positions@ == old(data).positions@
        },
{
    if data.annotation == Annotation::Text || !data.press {
        return Ok(());
    }
    if data.first_screen {
        data.positions.push(pos);
        Ok(())
    } else {
        rescale_coordinates(data, pos)
    }
}

/// Pointer released: the drag ends.
pub fn on_pointer_up(data: &mut GrabData)
    ensures
        !final(data).press,
        final(data).same_settings(old(data)),
        final(data).scale_factors == old(data).scale_factors,
        final(data).offsets == old(data).offsets,
        final(data).annotation == old(data).annotation,
        final(data).text_annotation@ == old(data).text_annotation@,
        final(data).image_data_old@ == old(data).image_data_old@,
        final(data).image_data_new@ == old(data).image_data_new@,
        final(data).positions@ == old(data).positions@,
        final(data).first_screen == old(data).first_screen,
{
    data.press = false;
}

/// Offsets that center an `image_w`×`image_h` image in a
/// `widget_w`×`widget_h` widget whose bottom `controls_height` rows hold
/// controls, moved back by `margin` (horizontally only where the image does
/// not fill the widget's width).
pub open spec fn centering_offsets(
    widget_w: int,
    widget_h: int,
    image_w: int,
    image_h: int,
    controls_height: int,
    margin: Point,
) -> (int, int) {
    let x = (widget_w - image_w) / 2;
    let y = (widget_h - controls_height - image_h) / 2;
    if x < 1 {
        (x, y - margin.y)
    } else {
        (x - margin.x, y - margin.y)
    }
}

/// Recomputes the session's offsets for the displayed image, once a capture
/// has been committed. Offsets beyond the range of `i32` are refused and the
/// session left as it was.
pub fn compute_offsets(
    data: &mut GrabData,
    widget_w: u32,
    widget_h: u32,
    image_w: u32,
    image_h: u32,
    controls_height: u32,
    margin: Point,
) -> (r: Result<(), ScreenError>)
    requires
        old(data).wf(),
    ensures
        final(data).wf(),
        final(data).same_settings(old(data)),
        final(data).press == old(data).press,
        final(data).scale_factors == old(data).scale_factors,
        final(data).annotation == old(data).annotation,
        final(data).text_annotation@ == old(data).text_annotation@,
        final(data).image_data_old@ == old(data).image_data_old@,
        final(data).image_data_new@ == old(data).image_data_new@,
        final(data).positions@ == old(data).positions@,
        final(data).first_screen == old(data).first_screen,
        old(data).first_screen ==> r is Ok && final(data).offsets == old(data).offsets,
        !old(data).first_screen ==> ({
            let o = centering_offsets(widget_w as int, widget_h as int, image_w as int, image_h as int,
                controls_height as int, margin);
            &&& (r is Ok <==> fits_i32(o.0) && fits_i32(o.1))
            &&& r is Ok ==> final(data).offsets == Point { x: o.0 as i32, y: o.1 as i32 }
            &&& r matches Err(e) ==> e == ScreenError::CoordinatesOutOfRange && final(data).offsets == old(data).offsets
        }),
{
    if data.first_screen {
        return Ok(());
    }
    let x = floor_div(widget_w as i128 - image_w as i128, 2);
    let y = floor_div(widget_h as i128 - controls_height as i128 - image_h as i128, 2);
    let (ox, oy) = if x < 1 {
        (x, y - margin.y as i128)
    } else {
        (x - margin.x as i128, y - margin.y as i128)
    };
    if ox < i32::MIN as i128 || ox > i32::MAX as i128 || oy < i32::MIN as i128 || oy > i32::MAX as i128 {
        return Err(ScreenError::CoordinatesOutOfRange);
    }
    data.offsets = Point { x: ox as i32, y: oy as i32 };
    Ok(())
}

/// A pointer event over the capture widget, in widget coordinates. A release
/// carries the ratio of screen pixels to widget units.
#[derive(Clone, Copy, Debug, PartialEq, Eq, Structural)]
pub enum PointerEvent {
    Down { left_button: bool, pos: Point },
    Move { pos: Point },
    Up { pixel_scale: ScaleFactor },
}

/// The screen area grabbed for a first capture dragged out from `a` to `z`:
/// the drag in screen pixels, inset by the selection outline.
pub open spec fn first_capture_region(a: Point, z: Point, pixel_scale: ScaleFactor) -> (int, int, int, int) {
    selection_region(rect_of_endpoints(a, z), Point { x: 0, y: 0 }, pixel_scale, pixel_scale, BORDER_WIDTH)
}

/// What the caller is to do after an event.
#[derive(Clone, Copy, Debug, PartialEq, Eq, Structural)]
pub enum WidgetAction {
    /// Nothing beyond repainting.
    Repaint,
    /// Capture this area of the live desktop, in screen pixels, and commit it.
    CaptureArea(CropRegion),
    /// Commit the positions as the active shape.
    Commit,
}

/// The widget over which the user drags out a region and draws shapes.
#[derive(Clone, Copy, Debug, PartialEq, Eq, Structural)]
pub struct ScreenshotWidget;

impl ScreenshotWidget {
    /// Feeds one pointer event to the session and says what comes next: on
    /// release, a capture of the dragged area before the first capture (or
    /// a refusal when the outline leaves nothing of it), a commit of the shape
    /// after it (text waits for its text).
    pub fn event(&mut self, data: &mut GrabData, ev: PointerEvent) -> (r: Result<WidgetAction, ScreenError>)
        requires
            old(data).wf(),
            ev matches PointerEvent::Up { pixel_scale } ==> pixel_scale.wf(),
        ensures
            final(data).wf(),
            final(data).same_settings(old(data)),
            final(data).annotation == old(data).annotation,
            final(data).first_screen == old(data).first_screen,
            final(data).image_data_old@ == old(data).image_data_old@,
            final(data).image_data_new@ == old(data).image_data_new@,
            match ev {
                PointerEvent::Down { left_button, pos } => {
                    &&& final(data).press == (old(data).press || left_button)
                    &&& r is Ok ==> r == Ok::<WidgetAction, ScreenError>(WidgetAction::Repaint)
                    &&& (old(data).annotation != Annotation::Text ==> r is Ok && final(data).positions@ == old(data).positions@)
                    &&& (old(data).annotation == Annotation::Text ==> (r is Ok <==> fits_i32(rescaled(*old(data), pos).0)
                        && fits_i32(rescaled(*old(data), pos).1)))
                    &&& (old(data).annotation == Annotation::Text && r is Ok ==> final(data).positions@
                        == old(data).positions@.push(Point { x: rescaled(*old(data), pos).0 as i32, y: rescaled(*old(data), pos).1 as i32 }))
                    &&& (r is Err ==> final(data).positions@ == old(data).positions@)
                },
                PointerEvent::Move { pos } => {
                    &&& final(data).press == old(data).press
                    &&& r is Ok ==> r == Ok::<WidgetAction, ScreenError>(WidgetAction::Repaint)
                    &&& ((old(data).annotation == Annotation::Text || !old(data).press) ==> r is Ok
                        && final(data).positions@ == old(data).positions@)
                    &&& ((old(data).annotation != Annotation::Text && old(data).press && old(data).first_screen) ==> r is Ok
                        && final(data).positions@ == old(data).positions@.push(pos))
                    &&& ((old(data).annotation != Annotation::Text && old(data).press && !old(data).first_screen)
                        ==> (r is Ok <==> fits_i32(rescaled(*old(data), pos).0) && fits_i32(rescaled(*old(data), pos).1)))
                    &&& ((old(data).annotation != Annotation::Text && old(data).press && !old(data).first_screen && r is Ok)
                        ==> final(data).positions@ == old(data).positions@.push(
                            Point { x: rescaled(*old(data), pos).0 as i32, y: rescaled(*old(data), pos).1 as i32 }))
                    &&& (r is Err ==> final(data).positions@ == old(data).positions@)
                },
                PointerEvent::Up { pixel_scale } => {
                    &&& !final(data).press
                    &&& final(data).positions@ == old(data).positions@
                    &&& (old(data).positions@.len() == 0 || old(data).annotation == Annotation::Text)
                        ==> r == Ok::<WidgetAction, ScreenError>(WidgetAction::Repaint)
                    &&& (old(data).positions@.len() > 0 && old(data).annotation != Annotation::Text
                        && !old(data).first_screen) ==> r == Ok::<WidgetAction, ScreenError>(WidgetAction::Commit)
                    &&& (old(data).positions@.len() > 0 && old(data).annotation != Annotation::Text
                        && old(data).first_screen) ==> ({
                        let c = first_capture_region(old(data).positions@[0], old(data).positions@.last(), pixel_scale);
                        &&& region_nonempty(c) ==> (r matches Ok(WidgetAction::CaptureArea(g)) && g.as_tuple() == c)
                        &&& !region_nonempty(c) ==> r == Err::<WidgetAction, ScreenError>(
                            ScreenError::EmptyOrInvertedSelection)
                    })
                },
            },
    {
        match ev {
            PointerEvent::Down { left_button, pos } => {
                on_pointer_down(data, left_button, pos)?;
                Ok(WidgetAction::Repaint)
            },
            PointerEvent::Move { pos } => {
                on_pointer_move(data, pos)?;
                Ok(WidgetAction::Repaint)
            },
            PointerEvent::Up { pixel_scale } => {
                on_pointer_up(data);
                if data.annotation == Annotation::Text {
                    return Ok(WidgetAction::Repaint);
                }
                match make_rectangle_from_points(&data.positions) {
                    None => Ok(WidgetAction::Repaint),
                    Some(rect) => {
                        if data.first_screen {
                            let area = crop_region(rect, Point { x: 0, y: 0 }, pixel_scale, pixel_scale, BORDER_WIDTH)?;
                            Ok(WidgetAction::CaptureArea(area))
                        } else {
                            Ok(WidgetAction::Commit)
                        }
                    },
                }
            },
        }
    }
}

} // verus!
