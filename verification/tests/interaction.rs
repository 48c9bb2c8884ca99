use ninecurve::{
    coefficients_from_minors, default_points, equation_text, normalize, screen_coords, Model, Msg,
    Point, Viewport, COEFF_SCALE,
};

const DEFAULTS: [(i64, i64); 9] = [
    (1960, -2744),
    (1440, -1728),
    (1000, -1000),
    (490, -343),
    (0, 0),
    (490, 343),
    (1000, 1000),
    (1440, 1728),
    (1960, 2744),
];

#[test]
fn default_points_are_the_cubic_samples() {
    let pts = default_points();
    assert_eq!(pts.len(), 9);
    for (p, &(x, y)) in pts.iter().zip(DEFAULTS.iter()) {
        assert_eq!((p.x, p.y), (x, y));
        // Each default point lies exactly on the cuspidal cubic y^2 = x^3
        // (fixed-point scale: one factor of 1000 left over).
        assert_eq!(p.y * p.y * 1000, p.x * p.x * p.x);
    }
}

#[test]
fn transform_center_pixel_maps_to_origin() {
    let vp = Viewport { width: 800, height: 600 };
    let p = screen_coords(vp, 400, 300);
    assert_eq!((p.x, p.y), (0, 0));
}

#[test]
fn transform_top_left_pixel() {
    let vp = Viewport { width: 800, height: 600 };
    let p = screen_coords(vp, 0, 0);
    // x = -3 * (width / height) = -4, y = 3, in thousandths.
    assert_eq!((p.x, p.y), (-4000, 3000));
}

#[test]
fn transform_follows_formula() {
    let vp = Viewport { width: 800, height: 600 };
    // x = 3000 * (2*600 - 800) / 600, y = 3000 * (600 - 2*150) / 600.
    let p = screen_coords(vp, 600, 150);
    assert_eq!((p.x, p.y), (2000, 1500));
    // Truncation toward zero on a non-dividing case.
    let vp2 = Viewport { width: 700, height: 600 };
    let q = screen_coords(vp2, 0, 0);
    assert_eq!(q.x, -(3000 * 700 / 600));
    assert_eq!(q.y, 3000);
}

#[test]
fn init_applies_margin_to_container() {
    let m = Model::init(820, 620);
    assert_eq!(m.viewport, Viewport { width: 800, height: 600 });
    assert_eq!(m.selected_point, None);
}

#[test]
fn resize_subtracts_margin() {
    let mut m = Model::init(820, 620);
    m.update(Msg::Resize(1044, 788));
    assert_eq!(m.viewport, Viewport { width: 1024, height: 768 });
    // Points and selection untouched.
    assert_eq!(m.points.len(), 9);
    assert_eq!((m.points[0].x, m.points[0].y), DEFAULTS[0]);
    assert_eq!(m.selected_point, None);
}

#[test]
fn click_selects_first_point_within_radius() {
    let mut m = Model::init(820, 620);
    // Within distance 0.1 of point 6 = (1.000, 1.000) only.
    m.update(Msg::Click(Point { x: 1005, y: 997 }));
    assert_eq!(m.selected_point, Some(6));
}

#[test]
fn click_far_from_points_selects_nothing() {
    let mut m = Model::init(820, 620);
    m.update(Msg::Click(Point { x: -2500, y: 100 }));
    assert_eq!(m.selected_point, None);
}

#[test]
fn click_with_selection_clears_it_anywhere() {
    let mut m = Model::init(820, 620);
    m.update(Msg::Click(Point { x: 1000, y: 1000 }));
    assert_eq!(m.selected_point, Some(6));
    // A second click releases, even directly on another point.
    m.update(Msg::Click(Point { x: 1960, y: 2744 }));
    assert_eq!(m.selected_point, None);
}

#[test]
fn drag_moves_only_the_selected_point() {
    let mut m = Model::init(820, 620);
    m.update(Msg::Click(Point { x: 490, y: 343 }));
    assert_eq!(m.selected_point, Some(5));
    let before: Vec<Point> = m.points.clone();
    m.update(Msg::MouseMove(Point { x: -777, y: 1234 }));
    assert_eq!((m.points[5].x, m.points[5].y), (-777, 1234));
    for i in 0..9 {
        if i != 5 {
            assert_eq!(m.points[i], before[i]);
        }
    }
    assert_eq!(m.selected_point, Some(5));
}

#[test]
fn drag_without_selection_is_a_no_op() {
    let mut m = Model::init(820, 620);
    let before: Vec<Point> = m.points.clone();
    m.update(Msg::MouseMove(Point { x: -777, y: 1234 }));
    assert_eq!(m.points, before);
}

#[test]
fn frame_mutates_nothing() {
    let mut m = Model::init(820, 620);
    let before: Vec<Point> = m.points.clone();
    m.update(Msg::Frame);
    assert_eq!(m.points, before);
    assert_eq!(m.selected_point, None);
    assert_eq!(m.viewport, Viewport { width: 800, height: 600 });
}

#[test]
fn cofactor_signs_alternate_starting_positive() {
    let minors: Vec<i64> = vec![1, 2, 3, 4, 5, 6, 7, 8, 9, 10];
    let c = coefficients_from_minors(&minors);
    assert_eq!(c, vec![1, -2, 3, -4, 5, -6, 7, -8, 9, -10]);
}

#[test]
fn normalize_scales_largest_magnitude_to_one() {
    let c: Vec<i64> = vec![2, -4, 1, 0, 0, 0, 0, 0, 0, 3];
    let n = normalize(&c);
    assert_eq!(n, vec![500_000, -1_000_000, 250_000, 0, 0, 0, 0, 0, 0, 750_000]);
    assert_eq!(n.iter().map(|v| v.abs()).max(), Some(COEFF_SCALE));
}

#[test]
fn normalize_handles_negative_maximum() {
    let c: Vec<i64> = vec![-8, 2, 0, 0, 0, 0, 0, 0, 0, 0];
    let n = normalize(&c);
    assert_eq!(n[0], -1_000_000);
    assert_eq!(n[1], 250_000);
    assert_eq!(n.iter().map(|v| v.abs()).max(), Some(COEFF_SCALE));
}

#[test]
fn normalize_keeps_all_zero_vector() {
    let c: Vec<i64> = vec![0; 10];
    assert_eq!(normalize(&c), c);
}

#[test]
fn equation_text_formats_two_decimals() {
    let c: Vec<i64> = vec![-1_000_000, 0, 0, 0, 0, 0, 1_000_000, 0, 0, 0];
    assert_eq!(
        equation_text(&c),
        "-1.00 x^3 + 0.00 x^2 y + 0.00 x y^2 + 0.00 y^3 + 0.00 x^2 + 0.00 x y + 1.00 y^2 + 0.00 x + 0.00 y + 0.00 = 0"
    );
}

#[test]
fn equation_text_rounds_to_nearest_hundredth() {
    let c: Vec<i64> = vec![345_000, -4_999, 5_000, -355_001, 0, 0, 0, 0, 0, 999_999];
    assert_eq!(
        equation_text(&c),
        "0.35 x^3 + -0.00 x^2 y + 0.01 x y^2 + -0.36 y^3 + 0.00 x^2 + 0.00 x y + 0.00 y^2 + 0.00 x + 0.00 y + 1.00 = 0"
    );
}

#[test]
fn hit_boundary_is_exclusive() {
    let mut m = Model::init(820, 620);
    // Point 4 is the origin; distance exactly 0.1 must not select.
    m.update(Msg::Click(Point { x: 100, y: 0 }));
    assert_eq!(m.selected_point, None);
    // Just inside the radius does.
    m.update(Msg::Click(Point { x: 99, y: 0 }));
    assert_eq!(m.selected_point, Some(4));
}

#[test]
fn overlapping_points_select_the_lowest_index() {
    let mut m = Model::init(820, 620);
    // Move point 5 exactly onto point 6.
    m.update(Msg::Click(Point { x: 490, y: 343 }));
    m.update(Msg::MouseMove(Point { x: 1000, y: 1000 }));
    m.update(Msg::Click(Point { x: 0, y: 3000 }));
    assert_eq!(m.selected_point, None);
    // Both 5 and 6 are now hits; the scan in index order takes 5.
    m.update(Msg::Click(Point { x: 1000, y: 1000 }));
    assert_eq!(m.selected_point, Some(5));
}
