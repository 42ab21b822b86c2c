//! Multi-display compositing, the mapping from widget to capture
//! coordinates, and cropping to a selection.

use crate::error::ScreenError;
use crate::geometry::{Point, Rect};
use crate::raster::{
    blitted, copy_into, crop_image, cropped, decode_png, png_decoded, Pixmap, RasterImage,
};
use vstd::arithmetic::div_mod::lemma_fundamental_div_mod;
use vstd::arithmetic::div_mod::lemma_fundamental_div_mod_converse;
use vstd::prelude::*;

verus! {

/// A display's place and size on the virtual desktop.
#[derive(Clone, Copy, Debug, PartialEq, Eq, Structural)]
pub struct DisplayInfo {
    pub x: i32,
    pub y: i32,
    pub width: u32,
    pub height: u32,
}

/// The box covering every display, on the virtual desktop.
#[derive(Clone, Copy, Debug, PartialEq, Eq, Structural)]
pub struct ScreenBounds {
    pub x_min: i64,
    pub y_min: i64,
    pub x_max: i64,
    pub y_max: i64,
}

pub open spec fn right_of(d: DisplayInfo) -> int {
    d.x + d.width
}

pub open spec fn bottom_of(d: DisplayInfo) -> int {
    d.y + d.height
}

/// `b` is the union of the displays' rectangles: each bound is reached by
/// some display and no display passes it.
pub open spec fn is_union_bounds(ds: Seq<DisplayInfo>, b: ScreenBounds) -> bool {
    &&& forall|i: int| 0 <= i < ds.len() ==> b.x_min <= (#[trigger] ds[i]).x && b.y_min <= ds[i].y
        && right_of(ds[i]) <= b.x_max && bottom_of(ds[i]) <= b.y_max
    &&& exists|i: int| 0 <= i < ds.len() && (#[trigger] ds[i]).x == b.x_min
    &&& exists|i: int| 0 <= i < ds.len() && (#[trigger] ds[i]).y == b.y_min
    &&& exists|i: int| 0 <= i < ds.len() && right_of(#[trigger] ds[i]) == b.x_max
    &&& exists|i: int| 0 <= i < ds.len() && bottom_of(#[trigger] ds[i]) == b.y_max
}

/// Union of the displays' rectangles; fails on an empty list.
pub fn compute_screening_coordinates(displays: &Vec<DisplayInfo>) -> (r: Result<ScreenBounds, ScreenError>)
    ensures
        displays@.len() > 0 <==> r is Ok,
        r matches Ok(b) ==> is_union_bounds(displays@, b),
        r matches Err(e) ==> e == ScreenError::NoDisplaysFound,
{
    if displays.len() == 0 {
        return Err(ScreenError::NoDisplaysFound);
    }
    let d0 = displays[0];
    let mut b = ScreenBounds {
        x_min: d0.x as i64,
        y_min: d0.y as i64,
        x_max: d0.x as i64 + d0.width as i64,
        y_max: d0.y as i64 + d0.height as i64,
    };
    let ghost mut wx: int = 0;
    let ghost mut wy: int = 0;
    let ghost mut wr: int = 0;
    let ghost mut wb: int = 0;
    let mut i: usize = 1;
    while i < displays.len()
        invariant
            1 <= i <= displays@.len(),
            0 <= wx < i && displays@[wx].x == b.x_min,
            0 <= wy < i && displays@[wy].y == b.y_min,
            0 <= wr < i && right_of(displays@[wr]) == b.x_max,
            0 <= wb < i && bottom_of(displays@[wb]) == b.y_max,
            forall|j: int| 0 <= j < i ==> b.x_min <= (#[trigger] displays@[j]).x && b.y_min <= displays@[j].y
                && right_of(displays@[j]) <= b.x_max && bottom_of(displays@[j]) <= b.y_max,
        decreases displays@.len() - i,
    {
        let d = displays[i];
        if (d.x as i64) < b.x_min {
            b.x_min = d.x as i64;
            proof { wx = i as int; }
        }
        if (d.y as i64) < b.y_min {
            b.y_min = d.y as i64;
            proof { wy = i as int; }
        }
        if d.x as i64 + d.width as i64 > b.x_max {
            b.x_max = d.x as i64 + d.width as i64;
            proof { wr = i as int; }
        }
        if d.y as i64 + d.height as i64 > b.y_max {
            b.y_max = d.y as i64 + d.height as i64;
            proof { wb = i as int; }
        }
        i += 1;
    }
    assert(displays@[wx].x == b.x_min);
    assert(displays@[wy].y == b.y_min);
    assert(right_of(displays@[wr]) == b.x_max);
    assert(bottom_of(displays@[wb]) == b.y_max);
    Ok(b)
}

/// Ratio of captured pixels to displayed pixels along one axis.
#[derive(Clone, Copy, Debug, PartialEq, Eq, Structural)]
pub struct ScaleFactor {
    pub captured: u32,
    pub displayed: u32,
}

impl ScaleFactor {
    pub open spec fn wf(self) -> bool {
        self.displayed > 0
    }

    /// Displayed one to one.
    pub fn unit() -> (r: ScaleFactor)
        ensures
            r.wf(),
            r.captured == 1 && r.displayed == 1,
    {
        ScaleFactor { captured: 1, displayed: 1 }
    }
}

/// Capture-space coordinate of widget coordinate `v` on one axis:
/// `(v - offset) * scale`, rounded down.
pub open spec fn to_capture(v: int, offset: int, s: ScaleFactor) -> int {
    (v - offset) * s.captured / (s.displayed as int)
}

/// `n / d` rounded down, for a positive `d`.
pub(crate) fn floor_div(n: i128, d: u32) -> (r: i128)
    requires
        d > 0,
        -0x1_0000_0000_0000_0000_0000 <= n <= 0x1_0000_0000_0000_0000_0000,
    ensures
        r == (n as int) / (d as int),
        if n >= 0 { 0 <= r <= n } else { n <= r <= 0 },
{
    if n >= 0 {
        let q: u128 = n as u128 / d as u128;
        proof {
            lemma_fundamental_div_mod(n as int, d as int);
            let rem = (n as int) % (d as int);
            assert(0 <= q <= n) by (nonlinear_arith)
                requires n == (d as int) * (q as int) + rem, 0 <= rem < d, d >= 1, n >= 0;
        }
        q as i128
    } else {
        let m: u128 = (-n) as u128;
        let t: u128 = m + d as u128 - 1;
        let q: u128 = t / d as u128;
        proof {
            lemma_fundamental_div_mod(t as int, d as int);
            let rem = (t as int) % (d as int);
            assert(0 <= rem < d);
            assert(n == (-(q as int)) * (d as int) + (d - 1 - rem)) by (nonlinear_arith)
                requires
                    t == (d as int) * (q as int) + rem,
                    t == m + d - 1,
                    n == -m;
            lemma_fundamental_div_mod_converse(n as int, d as int, -(q as int), d - 1 - rem);
            assert(q <= m) by (nonlinear_arith)
                requires t == (d as int) * (q as int) + rem, t == m + d - 1, 0 <= rem, d >= 1, m >= 1;
        }
        -(q as i128)
    }
}

/// Capture-space coordinate of widget coordinate `v`.
pub fn to_capture_coordinate(v: i32, offset: i32, s: ScaleFactor) -> (r: i128)
    requires
        s.wf(),
    ensures
        r == to_capture(v as int, offset as int, s),
        -0x1_0000_0000_0000_0000 <= r <= 0x1_0000_0000_0000_0000,
{
    let diff: i128 = v as i128 - offset as i128;
    assert(-0x1_0000_0000 <= diff <= 0x1_0000_0000);
    assert(-0x1_0000_0000_0000_0000 <= diff * s.captured <= 0x1_0000_0000_0000_0000) by (nonlinear_arith)
        requires
            -0x1_0000_0000 <= diff <= 0x1_0000_0000,
            0 <= s.captured <= 0xffff_ffff;
    let prod: i128 = diff * s.captured as i128;
    floor_div(prod, s.displayed)
}

/// The region to cut from the capture, in capture pixels: the selection
/// mapped to capture space and inset by the border on each side.
#[derive(Clone, Copy, Debug, PartialEq, Eq, Structural)]
pub struct CropRegion {
    pub x: i128,
    pub y: i128,
    pub width: i128,
    pub height: i128,
}

pub open spec fn selection_region(
    sel: Rect,
    offsets: Point,
    sx: ScaleFactor,
    sy: ScaleFactor,
    border: u32,
) -> (int, int, int, int) {
    let x0 = to_capture(sel.min_x as int, offsets.x as int, sx);
    let y0 = to_capture(sel.min_y as int, offsets.y as int, sy);
    let x1 = to_capture(sel.max_x as int, offsets.x as int, sx);
    let y1 = to_capture(sel.max_y as int, offsets.y as int, sy);
    (x0 + border, y0 + border, x1 - x0 - 2 * border, y1 - y0 - 2 * border)
}

impl CropRegion {
    pub open spec fn as_tuple(self) -> (int, int, int, int) {
        (self.x as int, self.y as int, self.width as int, self.height as int)
    }
}

/// The selection is usable: something is left after the inset.
pub open spec fn region_nonempty(r: (int, int, int, int)) -> bool {
    r.2 > 0 && r.3 > 0
}

/// Maps a selection to capture pixels and insets it by `border`; fails when
/// nothing is left.
pub fn crop_region(sel: Rect, offsets: Point, sx: ScaleFactor, sy: ScaleFactor, border: u32) -> (r: Result<CropRegion, ScreenError>)
    requires
        sx.wf(),
        sy.wf(),
    ensures
        region_nonempty(selection_region(sel, offsets, sx, sy, border)) <==> r is Ok,
        r matches Ok(c) ==> c.as_tuple() == selection_region(sel, offsets, sx, sy, border),
        r matches Err(e) ==> e == ScreenError::EmptyOrInvertedSelection,
{
    let x0 = to_capture_coordinate(sel.min_x, offsets.x, sx);
    let y0 = to_capture_coordinate(sel.min_y, offsets.y, sy);
    let x1 = to_capture_coordinate(sel.max_x, offsets.x, sx);
    let y1 = to_capture_coordinate(sel.max_y, offsets.y, sy);
    let c = CropRegion {
        x: x0 + border as i128,
        y: y0 + border as i128,
        width: x1 - x0 - 2 * border as i128,
        height: y1 - y0 - 2 * border as i128,
    };
    if c.width <= 0 || c.height <= 0 {
        return Err(ScreenError::EmptyOrInvertedSelection);
    }
    Ok(c)
}

/// Clamps a coordinate into `u32`, as a saturating cast does.
pub open spec fn sat_u32(v: int) -> nat {
    if v < 0 {
        0
    } else if v > u32::MAX {
        u32::MAX as nat
    } else {
        v as nat
    }
}

fn to_u32_saturating(v: i128) -> (r: u32)
    ensures
        r == sat_u32(v as int),
{
    if v < 0 {
        0
    } else if v > u32::MAX as i128 {
        u32::MAX
    } else {
        v as u32
    }
}

/// The selection, mapped to capture pixels and inset by `border`, cut out of
/// `canvas`; fails when the inset leaves no width or no height.
pub fn crop_to_selection(
    canvas: &RasterImage,
    sel: Rect,
    offsets: Point,
    sx: ScaleFactor,
    sy: ScaleFactor,
    border: u32,
) -> (r: Result<RasterImage, ScreenError>)
    requires
        canvas.wf(),
        sx.wf(),
        sy.wf(),
    ensures
        region_nonempty(selection_region(sel, offsets, sx, sy, border)) <==> r is Ok,
        r matches Err(e) ==> e == ScreenError::EmptyOrInvertedSelection,
        r matches Ok(img) ==> img.wf() && img@ == ({
            let c = selection_region(sel, offsets, sx, sy, border);
            cropped(canvas@, sat_u32(c.0), sat_u32(c.1), sat_u32(c.2), sat_u32(c.3))
        }),
{
    let c = crop_region(sel, offsets, sx, sy, border)?;
    let x = to_u32_saturating(c.x);
    let y = to_u32_saturating(c.y);
    let w = to_u32_saturating(c.width);
    let h = to_u32_saturating(c.height);
    Ok(crop_image(canvas, x, y, w, h))
}

/// Whatever the border, a selection whose mapped width or height is below
/// twice the border is refused, so no crop of negative size is ever made.
pub proof fn lemma_narrow_selection_refused(sel: Rect, offsets: Point, sx: ScaleFactor, sy: ScaleFactor, border: u32)
    requires
        sx.wf(),
        sy.wf(),
        to_capture(sel.max_x as int, offsets.x as int, sx) - to_capture(sel.min_x as int, offsets.x as int, sx) < 2 * border
        || to_capture(sel.max_y as int, offsets.y as int, sy) - to_capture(sel.min_y as int, offsets.y as int, sy) < 2 * border,
    ensures
        !region_nonempty(selection_region(sel, offsets, sx, sy, border)),
{
}

/// The union of the displays' rectangles (meaningful for a non-empty list).
pub open spec fn union_of(ds: Seq<DisplayInfo>) -> ScreenBounds {
    choose|b: ScreenBounds| is_union_bounds(ds, b)
}

proof fn lemma_union_unique(ds: Seq<DisplayInfo>, b: ScreenBounds)
    requires
        is_union_bounds(ds, b),
    ensures
        union_of(ds) == b,
{
    let c = union_of(ds);
    assert(is_union_bounds(ds, c));
    let i1 = choose|i: int| 0 <= i < ds.len() && (#[trigger] ds[i]).x == b.x_min;
    let i2 = choose|i: int| 0 <= i < ds.len() && (#[trigger] ds[i]).x == c.x_min;
    let j1 = choose|i: int| 0 <= i < ds.len() && (#[trigger] ds[i]).y == b.y_min;
    let j2 = choose|i: int| 0 <= i < ds.len() && (#[trigger] ds[i]).y == c.y_min;
    let k1 = choose|i: int| 0 <= i < ds.len() && right_of(#[trigger] ds[i]) == b.x_max;
    let k2 = choose|i: int| 0 <= i < ds.len() && right_of(#[trigger] ds[i]) == c.x_max;
    let l1 = choose|i: int| 0 <= i < ds.len() && bottom_of(#[trigger] ds[i]) == b.y_max;
    let l2 = choose|i: int| 0 <= i < ds.len() && bottom_of(#[trigger] ds[i]) == c.y_max;
    assert(ds[i1].x == b.x_min && ds[i2].x == c.x_min);
    assert(ds[j1].y == b.y_min && ds[j2].y == c.y_min);
    assert(right_of(ds[k1]) == b.x_max && right_of(ds[k2]) == c.x_max);
    assert(bottom_of(ds[l1]) == b.y_max && bottom_of(ds[l2]) == c.y_max);
}

pub open spec fn canvas_width(b: ScreenBounds) -> int {
    b.x_max - b.x_min
}

pub open spec fn canvas_height(b: ScreenBounds) -> int {
    b.y_max - b.y_min
}

/// The canvas covering `b` can be allocated.
pub open spec fn canvas_fits(b: ScreenBounds) -> bool {
    canvas_width(b) <= u32::MAX && canvas_height(b) <= u32::MAX
        && 4 * canvas_width(b) * canvas_height(b) <= usize::MAX
}

pub open spec fn blank_pixmap(w: nat, h: nat) -> Pixmap {
    Pixmap { width: w, height: h, pixels: Seq::new(4 * w * h, |i: int| 0u8) }
}

/// The capture of display `i` decodes and fits at the display's place.
pub open spec fn capture_ok(ds: Seq<DisplayInfo>, caps: Seq<Seq<u8>>, b: ScreenBounds, i: int) -> bool {
    &&& png_decoded(caps[i]) is Some
    &&& ds[i].x - b.x_min + png_decoded(caps[i]).unwrap().width <= canvas_width(b)
    &&& ds[i].y - b.y_min + png_decoded(caps[i]).unwrap().height <= canvas_height(b)
}

/// Capture `i` is the first one that does not decode or does not fit.
pub open spec fn first_failed_capture(ds: Seq<DisplayInfo>, caps: Seq<Seq<u8>>, b: ScreenBounds, i: int) -> bool {
    &&& 0 <= i < caps.len()
    &&& !capture_ok(ds, caps, b, i)
    &&& forall|j: int| 0 <= j < i ==> capture_ok(ds, caps, b, j)
}

/// Every capture decodes and fits, and the canvas can be allocated.
pub open spec fn composite_ok(ds: Seq<DisplayInfo>, caps: Seq<Seq<u8>>) -> bool {
    &&& ds.len() > 0
    &&& canvas_fits(union_of(ds))
    &&& forall|i: int| 0 <= i < caps.len() ==> capture_ok(ds, caps, union_of(ds), i)
}

/// The canvas after the first `n` captures were copied in, each at its
/// display's place relative to the union's corner.
pub open spec fn composed(ds: Seq<DisplayInfo>, caps: Seq<Seq<u8>>, b: ScreenBounds, n: nat) -> Pixmap
    decreases n,
{
    if n == 0 {
        blank_pixmap(canvas_width(b) as nat, canvas_height(b) as nat)
    } else {
        blitted(
            composed(ds, caps, b, (n - 1) as nat),
            png_decoded(caps[n - 1]).unwrap(),
            (ds[n - 1].x - b.x_min) as nat,
            (ds[n - 1].y - b.y_min) as nat,
        )
    }
}

/// Decodes each display's PNG capture and copies it onto one canvas covering
/// all displays, at the display's offset from the union's top-left corner.
pub fn composite_displays(displays: &Vec<DisplayInfo>, captures: &Vec<Vec<u8>>) -> (r: Result<RasterImage, ScreenError>)
    requires
        displays@.len() == captures@.len(),
    ensures
        displays@.len() == 0 <==> r == Err::<RasterImage, ScreenError>(ScreenError::NoDisplaysFound),
        r is Ok <==> composite_ok(displays@, captures@.map_values(|c: Vec<u8>| c@)),
        displays@.len() > 0 ==> ({
            let b = union_of(displays@);
            let caps = captures@.map_values(|c: Vec<u8>| c@);
            &&& r == Err::<RasterImage, ScreenError>(ScreenError::CanvasTooLarge) <==> !canvas_fits(b)
            &&& r is Ok <==> canvas_fits(b) && forall|i: int| 0 <= i < caps.len() ==> capture_ok(displays@, caps, b, i)
            &&& r matches Ok(img) ==> img.wf() && img@ == composed(displays@, caps, b, caps.len())
            &&& (canvas_fits(b) && !(forall|i: int| 0 <= i < caps.len() ==> capture_ok(displays@, caps, b, i)))
                ==> (r matches Err(ScreenError::CaptureFailed { .. }))
            &&& r matches Err(ScreenError::CaptureFailed { display_index: i }) ==> canvas_fits(b)
                && first_failed_capture(displays@, caps, b, i as int)
        }),
{
    let b = compute_screening_coordinates(displays)?;
    proof { lemma_union_unique(displays@, b); }
    let ghost caps = captures@.map_values(|c: Vec<u8>| c@);
    let cw: i64 = b.x_max - b.x_min;
    let ch: i64 = b.y_max - b.y_min;
    assert(b.x_min <= displays@[0].x <= right_of(displays@[0]) <= b.x_max);
    assert(b.y_min <= displays@[0].y <= bottom_of(displays@[0]) <= b.y_max);
    if cw > u32::MAX as i64 || ch > u32::MAX as i64 {
        return Err(ScreenError::CanvasTooLarge);
    }
    let mut canvas = match RasterImage::blank(cw as u32, ch as u32) {
        Some(c) => c,
        None => {
            assert(!canvas_fits(b));
            return Err(ScreenError::CanvasTooLarge);
        },
    };
    assert(canvas_fits(b));
    assert(canvas@.pixels =~= blank_pixmap(cw as nat, ch as nat).pixels);
    let mut i: usize = 0;
    while i < displays.len()
        invariant
            displays@.len() == captures@.len(),
            caps == captures@.map_values(|c: Vec<u8>| c@),
            is_union_bounds(displays@, b),
            b == union_of(displays@),
            canvas_fits(b),
            cw == canvas_width(b),
            ch == canvas_height(b),
            0 <= i <= displays@.len(),
            canvas.wf(),
            canvas.width == cw,
            canvas.height == ch,
            canvas@ == composed(displays@, caps, b, i as nat),
            forall|j: int| 0 <= j < i ==> capture_ok(displays@, caps, b, j),
        decreases displays@.len() - i,
    {
        let d = displays[i];
        assert(caps[i as int] == captures@[i as int]@);
        let img = match decode_png(&captures[i]) {
            Some(img) => img,
            None => {
                assert(!capture_ok(displays@, caps, b, i as int));
                return Err(ScreenError::CaptureFailed { display_index: i });
            },
        };
        let px: i64 = d.x as i64 - b.x_min;
        let py: i64 = d.y as i64 - b.y_min;
        assert(displays@[i as int] == d);
        if px + img.width as i64 > cw || py + img.height as i64 > ch {
            assert(!capture_ok(displays@, caps, b, i as int));
            return Err(ScreenError::CaptureFailed { display_index: i });
        }
        copy_into(&mut canvas, &img, px as u32, py as u32);
        assert(capture_ok(displays@, caps, b, i as int));
        i += 1;
    }
    assert(caps.len() == displays@.len());
    Ok(canvas)
}

} // verus!
