//! View-transform behaviour: exact round trips, cursor-anchored zoom, the
//! fit-to-window rule, pan and resize.

use oculante::rational::Frac;
use oculante::transform::Vec2;
use oculante::transform::ViewTransform;

fn fitted_200x200_for_100x50() -> ViewTransform {
    let mut t = ViewTransform::identity();
    t.reset(200, 200, 100, 50);
    t
}

#[test]
fn fit_reset_caps_scale_and_centers() {
    // A 100x50 image in a 200x200 window: the width ratio is 2 and the
    // height ratio is 4, but the fit rule caps the scale at 1, so the
    // untouched image is centered at offset (50, 75).
    let t = fitted_200x200_for_100x50();
    assert!(t.fit_mode());
    assert!(t.scale().eq_rat(Frac::from_int(1)));
    assert!(t.offset().x.eq_rat(Frac::from_int(50)));
    assert!(t.offset().y.eq_rat(Frac::from_int(75)));
}

#[test]
fn fit_reset_shrinks_large_image() {
    // A 400x100 image in a 200x200 window: scale min(1/2, 2, 1) = 1/2,
    // offsets (200 - 400/2)/2 = 0 and (200 - 100/2)/2 = 75.
    let mut t = ViewTransform::identity();
    t.reset(200, 200, 400, 100);
    assert!(t.scale().eq_rat(Frac::new(1, 2)));
    assert!(t.offset().x.eq_rat(Frac::from_int(0)));
    assert!(t.offset().y.eq_rat(Frac::from_int(75)));
}

#[test]
fn window_to_image_is_exact_inverse() {
    // Round trip through a non-trivial transform returns the original
    // window position exactly.
    let mut t = fitted_200x200_for_100x50();
    let applied = t.on_zoom(3, Vec2::new(Frac::new(61, 2), Frac::new(97, 3)));
    assert!(applied);
    let w = Vec2::new(Frac::new(123, 7), Frac::new(-45, 11));
    let img = t.window_to_image(w).unwrap();
    let back = t.image_to_window(img).unwrap();
    assert!(back.x.eq_rat(w.x));
    assert!(back.y.eq_rat(w.y));
}

#[test]
fn window_to_image_exact_value() {
    // With scale 1 and offset (50, 75), the window point (60, 80) is over
    // image pixel (10, 5).
    let t = fitted_200x200_for_100x50();
    let img = t.window_to_image(Vec2::new(Frac::from_int(60), Frac::from_int(80))).unwrap();
    assert!(img.x.eq_rat(Frac::from_int(10)));
    assert!(img.y.eq_rat(Frac::from_int(5)));
}

#[test]
fn zoom_keeps_cursor_anchored() {
    let mut t = fitted_200x200_for_100x50();
    let cursor = Vec2::new(Frac::new(377, 4), Frac::new(191, 6));
    let before = t.window_to_image(cursor).unwrap();
    assert!(t.on_zoom(7, cursor));
    let after = t.window_to_image(cursor).unwrap();
    assert!(before.x.eq_rat(after.x));
    assert!(before.y.eq_rat(after.y));
}

#[test]
fn zoom_out_keeps_cursor_anchored() {
    let mut t = fitted_200x200_for_100x50();
    let cursor = Vec2::new(Frac::from_int(12), Frac::from_int(150));
    let before = t.window_to_image(cursor).unwrap();
    assert!(t.on_zoom(-4, cursor));
    let after = t.window_to_image(cursor).unwrap();
    assert!(before.x.eq_rat(after.x));
    assert!(before.y.eq_rat(after.y));
}

#[test]
fn zoom_step_is_proportional() {
    // One wheel step of +5 multiplies the scale by 15/10.
    let mut t = fitted_200x200_for_100x50();
    assert!(t.on_zoom(5, Vec2::new(Frac::from_int(0), Frac::from_int(0))));
    assert!(t.scale().eq_rat(Frac::new(3, 2)));
    assert!(!t.fit_mode());
}

#[test]
fn zoom_that_would_kill_the_scale_is_rejected() {
    let mut t = fitted_200x200_for_100x50();
    let cursor = Vec2::new(Frac::from_int(10), Frac::from_int(10));
    assert!(!t.on_zoom(-10, cursor));
    assert!(!t.on_zoom(-1000, cursor));
    assert!(t.scale().eq_rat(Frac::from_int(1)));
    assert!(t.fit_mode());
}

#[test]
fn pan_moves_offset_without_clamping() {
    let mut t = fitted_200x200_for_100x50();
    // Drag far off-window on purpose; nothing clamps.
    assert!(t.on_pan(Vec2::new(Frac::from_int(-500), Frac::new(7, 2))));
    assert!(t.offset().x.eq_rat(Frac::from_int(-450)));
    assert!(t.offset().y.eq_rat(Frac::new(157, 2)));
    assert!(t.scale().eq_rat(Frac::from_int(1)));
    assert!(!t.fit_mode());
}

#[test]
fn resize_in_fit_mode_recomputes_fit() {
    let mut t = fitted_200x200_for_100x50();
    assert!(t.on_resize(300, 400, 100, 50, 200, 200));
    assert!(t.fit_mode());
    assert!(t.scale().eq_rat(Frac::from_int(1)));
    assert!(t.offset().x.eq_rat(Frac::from_int(100)));
    assert!(t.offset().y.eq_rat(Frac::from_int(175)));
}

#[test]
fn resize_recenters_centered_image_outside_fit_mode() {
    let mut t = fitted_200x200_for_100x50();
    // Leave fit mode while staying centered: zoom with the cursor exactly
    // at the window center keeps the image centered.
    assert!(t.on_zoom(10, Vec2::new(Frac::from_int(100), Frac::from_int(100))));
    assert!(!t.fit_mode());
    assert!(t.on_resize(400, 400, 100, 50, 200, 200));
    // Scale kept, offset re-centered for the new window: (400 - 200)/2 and
    // (400 - 100)/2.
    assert!(t.scale().eq_rat(Frac::from_int(2)));
    assert!(t.offset().x.eq_rat(Frac::from_int(100)));
    assert!(t.offset().y.eq_rat(Frac::from_int(150)));
}

#[test]
fn resize_leaves_uncentered_image_alone() {
    let mut t = fitted_200x200_for_100x50();
    assert!(t.on_pan(Vec2::new(Frac::from_int(13), Frac::from_int(0))));
    assert!(!t.on_resize(400, 400, 100, 50, 200, 200));
    assert!(t.offset().x.eq_rat(Frac::from_int(63)));
    assert!(t.offset().y.eq_rat(Frac::from_int(75)));
}

#[test]
fn fit_reset_at_the_largest_accepted_size() {
    // The largest window and image the fit computation accepts: ratios are
    // all 1, the image fills the window exactly.
    let mut t = ViewTransform::identity();
    let max = 0x4000_0000u32;
    t.reset(max, max, max, max);
    assert!(t.scale().eq_rat(Frac::from_int(1)));
    assert!(t.offset().x.eq_rat(Frac::from_int(0)));
    assert!(t.offset().y.eq_rat(Frac::from_int(0)));
}
