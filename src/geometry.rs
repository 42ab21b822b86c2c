//! Pure coordinate math: bounding rectangles, circles and line endpoints
//! derived from the pointer positions of a drag.

use vstd::prelude::*;

verus! {

/// A pixel position.
#[derive(Clone, Copy, Debug, PartialEq, Eq, Structural)]
pub struct Point {
    pub x: i32,
    pub y: i32,
}

/// A normalized rectangle given by its two extreme corners.
#[derive(Clone, Copy, Debug, PartialEq, Eq, Structural)]
pub struct Rect {
    pub min_x: i32,
    pub min_y: i32,
    pub max_x: i32,
    pub max_y: i32,
}

/// A circle in pixel units: `radius` is the largest integer not above the
/// true (real-valued) radius.
#[derive(Clone, Copy, Debug, PartialEq, Eq, Structural)]
pub struct CircleShape {
    pub center: Point,
    pub radius: u32,
}

pub open spec fn min_i32(a: i32, b: i32) -> i32 {
    if a <= b { a } else { b }
}

pub open spec fn max_i32(a: i32, b: i32) -> i32 {
    if a <= b { b } else { a }
}

impl Rect {
    pub open spec fn wf(self) -> bool {
        self.min_x <= self.max_x && self.min_y <= self.max_y
    }
}

/// The rectangle spanned by the first and the last position of a drag;
/// the positions in between play no part.
pub open spec fn rect_of_endpoints(a: Point, b: Point) -> Rect {
    Rect {
        min_x: min_i32(a.x, b.x),
        min_y: min_i32(a.y, b.y),
        max_x: max_i32(a.x, b.x),
        max_y: max_i32(a.y, b.y),
    }
}

pub open spec fn bounding_rect(points: Seq<Point>) -> Option<Rect> {
    if points.len() == 0 {
        None
    } else {
        Some(rect_of_endpoints(points[0], points.last()))
    }
}

/// Normalized rectangle from the first and last pointer position, or `None`
/// when there is no position yet.
pub fn make_rectangle_from_points(points: &Vec<Point>) -> (r: Option<Rect>)
    ensures
        r == bounding_rect(points@),
{
    if points.len() == 0 {
        return None;
    }
    let p1 = points[0];
    let p2 = points[points.len() - 1];
    let (min_x, max_x) = if p1.x <= p2.x { (p1.x, p2.x) } else { (p2.x, p1.x) };
    let (min_y, max_y) = if p1.y <= p2.y { (p1.y, p2.y) } else { (p2.y, p1.y) };
    Some(Rect { min_x, min_y, max_x, max_y })
}

/// Every non-empty drag gives a normalized rectangle, and it depends on the
/// first and last position alone: two drags that start and end at the same
/// places give the same rectangle whatever lies between.
pub proof fn lemma_bounding_rect_endpoints(p: Seq<Point>, q: Seq<Point>)
    requires
        p.len() >= 1,
        q.len() >= 1,
        p[0] == q[0],
        p.last() == q.last(),
    ensures
        bounding_rect(p) is Some,
        bounding_rect(p).unwrap().wf(),
        bounding_rect(p).unwrap().min_x == min_i32(p[0].x, p.last().x),
        bounding_rect(p).unwrap().max_x == max_i32(p[0].x, p.last().x),
        bounding_rect(p).unwrap().min_y == min_i32(p[0].y, p.last().y),
        bounding_rect(p).unwrap().max_y == max_i32(p[0].y, p.last().y),
        bounding_rect(p) == bounding_rect(q),
{
}

/// `r` is the integer square root of `n`.
pub open spec fn is_isqrt(n: int, r: int) -> bool {
    0 <= r && r * r <= n < (r + 1) * (r + 1)
}

/// Largest integer whose square does not exceed `n`.
pub fn isqrt(n: u128) -> (r: u64)
    requires
        n < 0x4_0000_0000_0000_0000u128,
    ensures
        is_isqrt(n as int, r as int),
{
    let mut lo: u128 = 0;
    let mut hi: u128 = 0x4_0000_0000;
    assert(hi * hi == 0x10_0000_0000_0000_0000u128);
    while hi - lo > 1
        invariant
            lo < hi <= 0x4_0000_0000,
            lo * lo <= n,
            n < hi * hi,
        decreases hi - lo,
    {
        let mid = lo + (hi - lo) / 2;
        assert(mid * mid <= 0x10_0000_0000_0000_0000u128) by (nonlinear_arith)
            requires mid <= 0x4_0000_0000u128;
        if mid * mid <= n {
            lo = mid;
        } else {
            hi = mid;
        }
    }
    assert(hi == lo + 1);
    lo as u64
}

/// The circle drawn for a rectangle: its center is the rectangle's midpoint
/// (rounded down) and its radius half the rectangle's diagonal, so the circle
/// passes through the rectangle's corners.
pub open spec fn circle_radius_of(dx: int, dy: int, r: int) -> bool {
    0 <= r && 4 * r * r <= dx * dx + dy * dy < 4 * (r + 1) * (r + 1)
}

/// Center and radius of the circle whose diameter is the rectangle's
/// diagonal.
pub fn compute_circle_center_radius(min_x: i32, min_y: i32, max_x: i32, max_y: i32) -> (r: CircleShape)
    requires
        min_x <= max_x,
        min_y <= max_y,
    ensures
        r.center.x == min_x + (max_x - min_x) / 2,
        r.center.y == min_y + (max_y - min_y) / 2,
        circle_radius_of(max_x - min_x, max_y - min_y, r.radius as int),
{
    let dx: u64 = (max_x as i64 - min_x as i64) as u64;
    let dy: u64 = (max_y as i64 - min_y as i64) as u64;
    let cx: i32 = (min_x as i64 + (dx / 2) as i64) as i32;
    let cy: i32 = (min_y as i64 + (dy / 2) as i64) as i32;
    assert(dx * dx <= 0xffff_ffff_ffff_ffffu128) by (nonlinear_arith)
        requires dx <= 0xffff_ffffu64;
    assert(dy * dy <= 0xffff_ffff_ffff_ffffu128) by (nonlinear_arith)
        requires dy <= 0xffff_ffffu64;
    let d: u128 = (dx as u128) * (dx as u128) + (dy as u128) * (dy as u128);
    let s = isqrt(d);
    let radius: u64 = s / 2;
    proof {
        let si = s as int;
        let ri = radius as int;
        let di = d as int;
        assert(2 * ri <= si && si <= 2 * ri + 1);
        assert(4 * ri * ri <= di) by (nonlinear_arith)
            requires 0 <= 2 * ri <= si, si * si <= di;
        assert(di < 4 * (ri + 1) * (ri + 1)) by (nonlinear_arith)
            requires 0 <= si <= 2 * ri + 1, di < (si + 1) * (si + 1);
        assert(ri < 0x1_0000_0000) by (nonlinear_arith)
            requires 0 <= ri, 4 * ri * ri <= di, di < 0x2_0000_0000_0000_0000;
    }
    CircleShape { center: Point { x: cx, y: cy }, radius: radius as u32 }
}

/// The arrow's shaft: from the first to the last position of the drag.
pub open spec fn arrow_shaft(points: Seq<Point>) -> Option<(Point, Point)> {
    if points.len() == 0 {
        None
    } else {
        Some((points[0], points.last()))
    }
}

/// End points of the arrow's main line, or `None` when there is no position.
/// The wings are worked out from this line in floating point by the caller.
pub fn arrow_main_line(points: &Vec<Point>) -> (r: Option<(Point, Point)>)
    ensures
        r == arrow_shaft(points@),
        r matches Some(l) ==> l.0 == points@[0] && l.1 == points@[points@.len() - 1],
{
    if points.len() == 0 {
        return None;
    }
    Some((points[0], points[points.len() - 1]))
}

/// The caret previewing a text annotation: a vertical segment of length
/// `text_size` going down from the last recorded position. Its lower end's
/// row is given as an `i64`, as it may pass the range of `i32`.
pub fn text_caret(points: &Vec<Point>, text_size: u32) -> (r: Option<(Point, i64)>)
    ensures
        points@.len() == 0 <==> r is None,
        r matches Some(c) ==> c.0 == points@.last() && c.1 == points@.last().y + text_size,
{
    if points.len() == 0 {
        return None;
    }
    let p = points[points.len() - 1];
    Some((p, p.y as i64 + text_size as i64))
}

/// How an image compares in size with the screen it is shown on.
#[derive(Clone, Copy, Debug, PartialEq, Eq, Structural)]
pub enum SizeTier {
    /// At least half the screen along some axis: shown shrunk by a fixed ratio.
    Large,
    /// At most a fifth of the screen along both axes: shown at a fixed small ratio.
    Small,
    /// In between: shown at a ratio proportional to its size.
    Medium,
}

/// `part` percent of `whole`, rounded down.
pub open spec fn percent_of(whole: int, part: int) -> int {
    whole * part / 100
}

/// Which of the three display-scale tiers an `img_w`×`img_h` image falls in
/// on a `screen_w`×`screen_h` screen.
pub fn image_size_tier(img_w: u32, img_h: u32, screen_w: u32, screen_h: u32) -> (r: SizeTier)
    ensures
        r == SizeTier::Large <==> img_w >= percent_of(screen_w as int, 50) || img_h >= percent_of(screen_h as int, 50),
        r == SizeTier::Small <==> !(img_w >= percent_of(screen_w as int, 50) || img_h >= percent_of(screen_h as int, 50))
            && img_w <= percent_of(screen_w as int, 20) && img_h <= percent_of(screen_h as int, 20),
{
    let half_w: u64 = screen_w as u64 * 50 / 100;
    let half_h: u64 = screen_h as u64 * 50 / 100;
    let fifth_w: u64 = screen_w as u64 * 20 / 100;
    let fifth_h: u64 = screen_h as u64 * 20 / 100;
    if img_w as u64 >= half_w || img_h as u64 >= half_h {
        SizeTier::Large
    } else if img_w as u64 <= fifth_w && img_h as u64 <= fifth_h {
        SizeTier::Small
    } else {
        SizeTier::Medium
    }
}

} // verus!
