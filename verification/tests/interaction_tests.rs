use fractal_view::control::InputSample;
use fractal_view::mapper::{Position, ScreenRect};
use fractal_view::rat::Rat;
use fractal_view::state::{FractalType, ViewState};

/// The rational `r` denotes exactly the integer `i`.
fn rat_is_int(r: Rat, i: i128) -> bool {
    r.num() == i * r.den()
}

/// Two rationals denote the same value (cross-multiplication).
fn rat_eq(a: Rat, b: Rat) -> bool {
    a.num() * b.den() == b.num() * a.den()
}

fn unit_rect() -> ScreenRect {
    ScreenRect::new(
        Rat::from_int(0),
        Rat::from_int(0),
        Rat::from_int(100),
        Rat::from_int(100),
    )
}

#[test]
fn default_state() {
    let s = ViewState::new();
    assert!(rat_is_int(s.zoom, 1));
    assert!(rat_is_int(s.center_x, 0));
    assert!(rat_is_int(s.center_y, 0));
    assert!(rat_is_int(s.c_julia_x, 0));
    assert!(rat_is_int(s.c_julia_y, 0));
    assert_eq!(s.fractal_type, FractalType::Julia);
    assert!(s.high_quality);
    assert!(rat_is_int(s.brightness, 0));
    assert!(rat_is_int(s.gamma, 1));
    assert!(rat_is_int(s.contrast, 0));
    assert!(rat_is_int(s.r, 1));
    assert!(rat_is_int(s.g, 1));
    assert!(rat_is_int(s.b, 1));
}

#[test]
fn scroll_up_multiplies_zoom_by_eleven_tenths() {
    let mut s = ViewState::new();
    s.zoom = Rat::from_int(2);
    let mut i = InputSample::none();
    i.scroll_y = Rat::from_int(1);
    let s2 = s.apply_input(&i, &unit_rect());
    assert_eq!(s2.zoom.num(), 22);
    assert_eq!(s2.zoom.den(), 10);
    assert!(rat_is_int(s2.center_x, 0));
    assert!(rat_is_int(s2.center_y, 0));
}

#[test]
fn scroll_down_multiplies_zoom_by_nine_tenths() {
    let mut s = ViewState::new();
    s.zoom = Rat::from_int(2);
    let mut i = InputSample::none();
    i.scroll_y = Rat::from_int(-1);
    let s2 = s.apply_input(&i, &unit_rect());
    assert_eq!(s2.zoom.num(), 18);
    assert_eq!(s2.zoom.den(), 10);
}

#[test]
fn repeated_scroll_up_is_multiplicative() {
    let mut s = ViewState::new();
    let mut i = InputSample::none();
    i.scroll_y = Rat::new(1, 2);
    let s2 = s.apply_input(&i, &unit_rect());
    let s3 = s2.apply_input(&i, &unit_rect());
    assert!(rat_eq(s3.zoom, Rat::new(121, 100)));
    s.zoom = Rat::from_int(10);
    let s4 = s.apply_input(&i, &unit_rect()).apply_input(&i, &unit_rect());
    assert!(rat_eq(s4.zoom, Rat::new(1210, 100)));
}

#[test]
fn scroll_sequence_is_order_independent() {
    let mut s = ViewState::new();
    s.zoom = Rat::from_int(5);
    let mut up = InputSample::none();
    up.scroll_y = Rat::from_int(3);
    let mut down = InputSample::none();
    down.scroll_y = Rat::from_int(-2);
    let rect = unit_rect();
    let a = s.apply_input(&up, &rect).apply_input(&down, &rect);
    let b = s.apply_input(&down, &rect).apply_input(&up, &rect);
    assert_eq!(a.zoom.num(), b.zoom.num());
    assert_eq!(a.zoom.den(), b.zoom.den());
    assert!(rat_eq(a.zoom, Rat::new(5 * 99, 100)));
}

#[test]
fn primary_double_click_zooms_in_by_six_fifths() {
    let mut s = ViewState::new();
    s.zoom = Rat::from_int(2);
    let mut i = InputSample::none();
    i.primary_double_clicked = true;
    let s2 = s.apply_input(&i, &unit_rect());
    assert_eq!(s2.zoom.num(), 12);
    assert_eq!(s2.zoom.den(), 5);
}

#[test]
fn secondary_double_click_zooms_out_by_six_fifths() {
    let mut s = ViewState::new();
    s.zoom = Rat::from_int(2);
    let mut i = InputSample::none();
    i.secondary_double_clicked = true;
    let s2 = s.apply_input(&i, &unit_rect());
    assert_eq!(s2.zoom.num(), 10);
    assert_eq!(s2.zoom.den(), 6);
}

#[test]
fn double_click_round_trip_restores_zoom() {
    let mut s = ViewState::new();
    s.zoom = Rat::new(3, 2);
    let mut zoom_in = InputSample::none();
    zoom_in.primary_double_clicked = true;
    let mut zoom_out = InputSample::none();
    zoom_out.secondary_double_clicked = true;
    let rect = unit_rect();
    let s2 = s.apply_input(&zoom_in, &rect).apply_input(&zoom_out, &rect);
    assert!(rat_eq(s2.zoom, s.zoom));
}

#[test]
fn primary_click_recenters_on_clicked_point() {
    let mut s = ViewState::new();
    s.zoom = Rat::from_int(1);
    let mut i = InputSample::none();
    i.primary_clicked = true;
    i.pointer = Some(Position::new(Rat::from_int(10), Rat::from_int(20)));
    let s2 = s.apply_input(&i, &unit_rect());
    // Viewport center (50, 50); click (10, 20); zoom 1:
    // center moves by (+40, -30) with the y axis inverted.
    assert!(rat_is_int(s2.center_x, 40));
    assert!(rat_is_int(s2.center_y, -30));
    assert!(rat_is_int(s2.zoom, 1));
}

#[test]
fn click_at_viewport_center_changes_nothing() {
    let mut s = ViewState::new();
    s.center_x = Rat::from_int(7);
    s.center_y = Rat::from_int(-3);
    let mut i = InputSample::none();
    i.primary_clicked = true;
    i.pointer = Some(Position::new(Rat::from_int(50), Rat::from_int(50)));
    let s2 = s.apply_input(&i, &unit_rect());
    assert!(rat_is_int(s2.center_x, 7));
    assert!(rat_is_int(s2.center_y, -3));
}

#[test]
fn click_without_pointer_defaults_to_origin() {
    let s = ViewState::new();
    let mut i = InputSample::none();
    i.primary_clicked = true;
    i.pointer = None;
    let s2 = s.apply_input(&i, &unit_rect());
    // Target falls back to (0, 0), so the shift is the viewport center
    // itself: (+50, -50) at zoom 1.
    assert!(rat_is_int(s2.center_x, 50));
    assert!(rat_is_int(s2.center_y, -50));
}

#[test]
fn recenter_scales_with_pixels_per_point() {
    let mut s = ViewState::new();
    s.zoom = Rat::from_int(2);
    let mut i = InputSample::none();
    i.pixels_per_point = Rat::from_int(2);
    i.primary_clicked = true;
    i.pointer = Some(Position::new(Rat::from_int(10), Rat::from_int(20)));
    let s2 = s.apply_input(&i, &unit_rect());
    // Centered space doubles both points; diff (80, 60) / zoom 2 = (40, 30).
    assert!(rat_is_int(s2.center_x, 40));
    assert!(rat_is_int(s2.center_y, -30));
}

#[test]
fn scroll_beats_primary_click_in_the_same_frame() {
    let mut s = ViewState::new();
    s.zoom = Rat::from_int(2);
    let mut i = InputSample::none();
    i.scroll_y = Rat::from_int(4);
    i.primary_clicked = true;
    i.pointer = Some(Position::new(Rat::from_int(10), Rat::from_int(20)));
    let s2 = s.apply_input(&i, &unit_rect());
    assert_eq!(s2.zoom.num(), 22);
    assert_eq!(s2.zoom.den(), 10);
    assert!(rat_is_int(s2.center_x, 0));
    assert!(rat_is_int(s2.center_y, 0));
}

#[test]
fn scroll_beats_double_click_in_the_same_frame() {
    let mut s = ViewState::new();
    s.zoom = Rat::from_int(2);
    let mut i = InputSample::none();
    i.scroll_y = Rat::from_int(-1);
    i.primary_double_clicked = true;
    let s2 = s.apply_input(&i, &unit_rect());
    assert_eq!(s2.zoom.num(), 18);
    assert_eq!(s2.zoom.den(), 10);
}

#[test]
fn zero_scroll_falls_through_to_clicks() {
    let mut s = ViewState::new();
    s.zoom = Rat::from_int(5);
    let mut i = InputSample::none();
    i.scroll_y = Rat::from_int(0);
    i.primary_double_clicked = true;
    let s2 = s.apply_input(&i, &unit_rect());
    assert_eq!(s2.zoom.num(), 30);
    assert_eq!(s2.zoom.den(), 5);
}

#[test]
fn drag_pans_center_with_inverted_y() {
    let mut s = ViewState::new();
    s.zoom = Rat::from_int(2);
    let mut i = InputSample::none();
    i.dragged = true;
    i.drag_x = Rat::from_int(3);
    i.drag_y = Rat::from_int(4);
    i.pixels_per_point = Rat::from_int(2);
    let s2 = s.apply_input(&i, &unit_rect());
    // drag * ppp = (6, 8); divided by zoom 2: center += (3, -4).
    assert!(rat_is_int(s2.center_x, 3));
    assert!(rat_is_int(s2.center_y, -4));
    assert!(rat_is_int(s2.zoom, 2));
}

#[test]
fn doubling_zoom_halves_the_drag_shift() {
    let mut a = ViewState::new();
    a.zoom = Rat::from_int(2);
    let mut b = ViewState::new();
    b.zoom = Rat::from_int(4);
    let mut i = InputSample::none();
    i.dragged = true;
    i.drag_x = Rat::from_int(3);
    i.drag_y = Rat::from_int(4);
    let rect = unit_rect();
    let a2 = a.apply_input(&i, &rect);
    let b2 = b.apply_input(&i, &rect);
    let twice_x = b2.center_x.mul(Rat::from_int(2));
    let twice_y = b2.center_y.mul(Rat::from_int(2));
    assert!(rat_eq(twice_x, a2.center_x));
    assert!(rat_eq(twice_y, a2.center_y));
}

#[test]
fn drag_without_motion_changes_nothing() {
    let s = ViewState::new();
    let mut i = InputSample::none();
    i.dragged = true;
    i.drag_x = Rat::from_int(0);
    i.drag_y = Rat::from_int(0);
    let s2 = s.apply_input(&i, &unit_rect());
    assert!(rat_is_int(s2.center_x, 0));
    assert!(rat_is_int(s2.center_y, 0));
    assert!(rat_is_int(s2.zoom, 1));
}

#[test]
fn motion_without_drag_flag_changes_nothing() {
    let s = ViewState::new();
    let mut i = InputSample::none();
    i.dragged = false;
    i.drag_x = Rat::from_int(9);
    i.drag_y = Rat::from_int(9);
    let s2 = s.apply_input(&i, &unit_rect());
    assert!(rat_is_int(s2.center_x, 0));
    assert!(rat_is_int(s2.center_y, 0));
}

#[test]
fn drag_divides_by_the_zoom_the_scroll_just_set() {
    let mut s = ViewState::new();
    s.zoom = Rat::from_int(2);
    let mut i = InputSample::none();
    i.scroll_y = Rat::from_int(1);
    i.dragged = true;
    i.drag_x = Rat::from_int(10);
    i.drag_y = Rat::from_int(0);
    let s2 = s.apply_input(&i, &unit_rect());
    // Zoom first becomes 22/10; the pan is 10 / (22/10) = 50/11.
    assert!(rat_eq(s2.zoom, Rat::new(22, 10)));
    assert!(rat_eq(s2.center_x, Rat::new(50, 11)));
    assert!(rat_is_int(s2.center_y, 0));
}

#[test]
fn scalar_overflow_yields_none() {
    let huge = Rat::from_int(i128::MAX / 2);
    assert!(huge.try_mul(Rat::from_int(3)).is_none());
    assert!(huge.try_add(Rat::new(1, 3)).is_none());
    assert!(Rat::from_int(5).try_div(Rat::from_int(0)).is_none());
    assert!(Rat::from_int(7).try_mul(Rat::from_int(2)).is_some());
}

#[test]
fn overflowing_frame_yields_none() {
    let mut s = ViewState::new();
    s.zoom = Rat::from_int(i128::MAX / 2);
    let mut i = InputSample::none();
    i.scroll_y = Rat::from_int(1);
    assert!(s.try_apply_input(&i, &unit_rect()).is_none());
    s.zoom = Rat::from_int(2);
    assert!(s.try_apply_input(&i, &unit_rect()).is_some());
}

#[test]
fn no_gesture_leaves_state_unchanged() {
    let mut s = ViewState::new();
    s.zoom = Rat::new(7, 3);
    s.center_x = Rat::new(-1, 4);
    let i = InputSample::none();
    let s2 = s.apply_input(&i, &unit_rect());
    assert_eq!(s2.zoom.num(), 7);
    assert_eq!(s2.zoom.den(), 3);
    assert_eq!(s2.center_x.num(), -1);
    assert_eq!(s2.center_x.den(), 4);
}
