use fractal_view::binding::{fractal_type_code, uniforms, UniformName, UniformValue};
use fractal_view::mapper::{fractal_center_for_viewport, ScreenRect};
use fractal_view::rat::Rat;
use fractal_view::state::{FractalType, ViewState};

/// The rational `r` denotes exactly the integer `i`.
fn rat_is_int(r: Rat, i: i128) -> bool {
    r.num() == i * r.den()
}

fn scalar_of(v: UniformValue) -> Rat {
    match v {
        UniformValue::Scalar(r) => r,
        _ => panic!("expected a scalar uniform"),
    }
}

fn pair_of(v: UniformValue) -> (Rat, Rat) {
    match v {
        UniformValue::Pair(x, y) => (x, y),
        _ => panic!("expected a 2-vector uniform"),
    }
}

fn flag_of(v: UniformValue) -> i32 {
    match v {
        UniformValue::Flag(f) => f,
        _ => panic!("expected an integer uniform"),
    }
}

#[test]
fn fractal_type_codes_are_stable() {
    assert_eq!(fractal_type_code(FractalType::Mandelbrot), 0);
    assert_eq!(fractal_type_code(FractalType::Julia), 1);
}

#[test]
fn gl_names_match_the_shader_declarations() {
    assert_eq!(UniformName::FractalZoom.gl_name(), "u_fractalZoom");
    assert_eq!(UniformName::Brightness.gl_name(), "u_brightness");
    assert_eq!(UniformName::Gamma.gl_name(), "u_gamma");
    assert_eq!(UniformName::Contrast.gl_name(), "u_contrast");
    assert_eq!(UniformName::ColorR.gl_name(), "u_r");
    assert_eq!(UniformName::ColorG.gl_name(), "u_g");
    assert_eq!(UniformName::ColorB.gl_name(), "u_b");
    assert_eq!(UniformName::HighQuality.gl_name(), "u_highQuality");
    assert_eq!(UniformName::FractalKind.gl_name(), "u_fractal_type");
    assert_eq!(UniformName::FractalPosition.gl_name(), "u_fractalPosition");
    assert_eq!(UniformName::CJulia.gl_name(), "u_cJulia");
}

#[test]
fn uniform_set_is_complete_and_exact() {
    let mut s = ViewState::new();
    s.zoom = Rat::from_int(2);
    s.center_x = Rat::from_int(3);
    s.center_y = Rat::from_int(-1);
    s.c_julia_x = Rat::new(1, 4);
    s.c_julia_y = Rat::new(-1, 8);
    s.brightness = Rat::new(1, 2);
    s.gamma = Rat::new(3, 2);
    s.contrast = Rat::new(-1, 2);
    s.r = Rat::new(1, 10);
    s.g = Rat::new(2, 10);
    s.b = Rat::new(3, 10);
    s.high_quality = false;
    s.fractal_type = FractalType::Mandelbrot;
    let vp = ScreenRect::new(
        Rat::from_int(30),
        Rat::from_int(10),
        Rat::from_int(200),
        Rat::from_int(100),
    );
    let u = uniforms(&s, &vp);
    assert_eq!(u.len(), 11);

    assert_eq!(u[0].name, UniformName::FractalZoom);
    assert!(rat_is_int(scalar_of(u[0].value), 2));
    assert_eq!(u[1].name, UniformName::Brightness);
    assert_eq!(scalar_of(u[1].value).num(), 1);
    assert_eq!(scalar_of(u[1].value).den(), 2);
    assert_eq!(u[2].name, UniformName::Gamma);
    assert_eq!(scalar_of(u[2].value).num(), 3);
    assert_eq!(u[3].name, UniformName::Contrast);
    assert_eq!(scalar_of(u[3].value).num(), -1);
    assert_eq!(u[4].name, UniformName::ColorR);
    assert_eq!(scalar_of(u[4].value).num(), 1);
    assert_eq!(u[5].name, UniformName::ColorG);
    assert_eq!(scalar_of(u[5].value).num(), 2);
    assert_eq!(u[6].name, UniformName::ColorB);
    assert_eq!(scalar_of(u[6].value).num(), 3);
    assert_eq!(u[7].name, UniformName::HighQuality);
    assert_eq!(flag_of(u[7].value), 0);
    assert_eq!(u[8].name, UniformName::FractalKind);
    assert_eq!(flag_of(u[8].value), 0);

    assert_eq!(u[9].name, UniformName::FractalPosition);
    let (px, py) = pair_of(u[9].value);
    // x: 3 + 30/2 + 0.5*200/2 = 3 + 15 + 50 = 68
    // y: -1 + 10/2 + 0.5*100/2 = -1 + 5 + 25 = 29
    assert!(rat_is_int(px, 68));
    assert!(rat_is_int(py, 29));

    assert_eq!(u[10].name, UniformName::CJulia);
    let (jx, jy) = pair_of(u[10].value);
    assert_eq!(jx.num(), 1);
    assert_eq!(jx.den(), 4);
    assert_eq!(jy.num(), -1);
    assert_eq!(jy.den(), 8);
}

#[test]
fn quality_flag_is_one_when_high_quality() {
    let s = ViewState::new();
    let vp = ScreenRect::new(
        Rat::from_int(0),
        Rat::from_int(0),
        Rat::from_int(0),
        Rat::from_int(0),
    );
    let u = uniforms(&s, &vp);
    assert_eq!(u[7].name, UniformName::HighQuality);
    assert_eq!(flag_of(u[7].value), 1);
    assert_eq!(u[8].name, UniformName::FractalKind);
    assert_eq!(flag_of(u[8].value), 1);
}

#[test]
fn zero_viewport_keeps_the_unshifted_center() {
    let mut s = ViewState::new();
    s.zoom = Rat::new(5, 2);
    s.center_x = Rat::new(7, 2);
    s.center_y = Rat::from_int(-3);
    let vp = ScreenRect::new(
        Rat::from_int(0),
        Rat::from_int(0),
        Rat::from_int(0),
        Rat::from_int(0),
    );
    let p = fractal_center_for_viewport(&s, &vp);
    assert_eq!(p.x.num() * 2, 7 * p.x.den());
    assert!(rat_is_int(p.y, -3));
}

#[test]
fn zero_origin_viewport_shifts_by_half_size_over_zoom() {
    let mut s = ViewState::new();
    s.zoom = Rat::from_int(2);
    let vp = ScreenRect::new(
        Rat::from_int(0),
        Rat::from_int(0),
        Rat::from_int(200),
        Rat::from_int(100),
    );
    let p = fractal_center_for_viewport(&s, &vp);
    assert!(rat_is_int(p.x, 50));
    assert!(rat_is_int(p.y, 25));
}

#[test]
fn viewport_origin_adds_its_own_shift() {
    let mut s = ViewState::new();
    s.zoom = Rat::from_int(2);
    let vp = ScreenRect::new(
        Rat::from_int(30),
        Rat::from_int(0),
        Rat::from_int(200),
        Rat::from_int(100),
    );
    let p = fractal_center_for_viewport(&s, &vp);
    assert!(rat_is_int(p.x, 65));
    assert!(rat_is_int(p.y, 25));
}
