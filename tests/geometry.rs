use grab_core::geometry::{
    arrow_main_line, compute_circle_center_radius, image_size_tier, isqrt, make_rectangle_from_points,
    text_caret, Point, Rect, SizeTier,
};

fn p(x: i32, y: i32) -> Point {
    Point { x, y }
}

#[test]
fn rectangle_of_empty_drag_is_none() {
    assert_eq!(make_rectangle_from_points(&vec![]), None);
}

#[test]
fn rectangle_uses_first_and_last_only() {
    let pts = vec![p(30, 5), p(-100, 900), p(1000, -7), p(10, 20)];
    assert_eq!(
        make_rectangle_from_points(&pts),
        Some(Rect { min_x: 10, min_y: 5, max_x: 30, max_y: 20 })
    );
}

#[test]
fn rectangle_in_all_four_drag_directions() {
    let want = Some(Rect { min_x: 1, min_y: 2, max_x: 8, max_y: 9 });
    assert_eq!(make_rectangle_from_points(&vec![p(1, 2), p(8, 9)]), want);
    assert_eq!(make_rectangle_from_points(&vec![p(8, 9), p(1, 2)]), want);
    assert_eq!(make_rectangle_from_points(&vec![p(1, 9), p(8, 2)]), want);
    assert_eq!(make_rectangle_from_points(&vec![p(8, 2), p(1, 9)]), want);
}

#[test]
fn rectangle_with_equal_coordinates() {
    assert_eq!(
        make_rectangle_from_points(&vec![p(4, 7), p(4, 3)]),
        Some(Rect { min_x: 4, min_y: 3, max_x: 4, max_y: 7 })
    );
    assert_eq!(
        make_rectangle_from_points(&vec![p(5, 5)]),
        Some(Rect { min_x: 5, min_y: 5, max_x: 5, max_y: 5 })
    );
}

#[test]
fn circle_of_ten_by_ten_square() {
    let c = compute_circle_center_radius(0, 0, 10, 10);
    assert_eq!(c.center, p(5, 5));
    // 5 * sqrt(2) = 7.07..., in whole pixels
    assert_eq!(c.radius, 7);
    assert_eq!(c.radius, (5.0f64 * 2.0f64.sqrt()) as u32);
}

#[test]
fn circle_of_circle_annotation_scenario() {
    let r = make_rectangle_from_points(&vec![p(0, 0), p(100, 50)]).unwrap();
    let c = compute_circle_center_radius(r.min_x, r.min_y, r.max_x, r.max_y);
    assert_eq!(c.center, p(50, 25));
    // sqrt(100^2 + 50^2) / 2 = 55.90...
    assert_eq!(c.radius, 55);
    assert_eq!(c.radius, ((100.0f64 * 100.0 + 50.0 * 50.0).sqrt() / 2.0) as u32);
}

#[test]
fn circle_of_extreme_rectangle() {
    let c = compute_circle_center_radius(i32::MIN, i32::MIN, i32::MAX, i32::MAX);
    assert_eq!(c.center, p(-1, -1));
    // half of sqrt(2) * (2^32 - 1)
    assert_eq!(c.radius, 3037000499);
}

#[test]
fn integer_square_roots() {
    assert_eq!(isqrt(0), 0);
    assert_eq!(isqrt(1), 1);
    assert_eq!(isqrt(15), 3);
    assert_eq!(isqrt(16), 4);
    assert_eq!(isqrt(12500), 111);
    assert_eq!(isqrt(u64::MAX as u128), 4294967295);
}

#[test]
fn arrow_line_spans_first_to_last() {
    assert_eq!(arrow_main_line(&vec![]), None);
    let pts = vec![p(3, 4), p(50, 60), p(10, -2)];
    assert_eq!(arrow_main_line(&pts), Some((p(3, 4), p(10, -2))));
}

#[test]
fn caret_hangs_from_last_position() {
    assert_eq!(text_caret(&vec![], 20), None);
    assert_eq!(text_caret(&vec![p(1, 1), p(7, 9)], 20), Some((p(7, 9), 29)));
    assert_eq!(text_caret(&vec![p(0, i32::MAX)], 10), Some((p(0, i32::MAX), i32::MAX as i64 + 10)));
}

#[test]
fn size_tiers() {
    assert_eq!(image_size_tier(960, 10, 1920, 1080), SizeTier::Large);
    assert_eq!(image_size_tier(10, 540, 1920, 1080), SizeTier::Large);
    assert_eq!(image_size_tier(384, 216, 1920, 1080), SizeTier::Small);
    assert_eq!(image_size_tier(385, 216, 1920, 1080), SizeTier::Medium);
    assert_eq!(image_size_tier(959, 539, 1920, 1080), SizeTier::Medium);
}
