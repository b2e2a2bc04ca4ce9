//! Coordinate mapping between screen space and fractal space.
//!
//! Two mappings live here. [`to_centered_space`] translates a screen
//! position (logical points) into a zoom- and pan-independent space by
//! scaling with the pixels-per-point factor; only *differences* of such
//! values are meaningful, which is all the interaction controller ever
//! takes. [`fractal_center_for_viewport`] maps the view state plus the
//! pixel rectangle being drawn to the fractal-space point the shader must
//! treat as the viewport's reference: per axis
//! `center + origin / zoom + (1/2) * size / zoom`, which compensates both
//! for sub-rectangle rendering and for centering.

use vstd::prelude::*;
use crate::rat::{
    Q, Rat, q_add, q_div, q_eq, q_half, q_int, q_is_pos, q_mul, fits,
    add_in_range, div_in_range, mul_in_range, lemma_pos_nonzero,
};
use crate::state::ViewState;

verus! {

/// Ghost model of a point: a pair of exact rationals.
pub struct QPoint {
    pub x: Q,
    pub y: Q,
}

/// A point in screen or fractal space, in exact rational coordinates.
#[derive(Clone, Copy, Debug)]
pub struct Position {
    pub x: Rat,
    pub y: Rat,
}

impl View for Position {
    type V = QPoint;

    open spec fn view(&self) -> QPoint {
        QPoint { x: self.x@, y: self.y@ }
    }
}

impl Position {
    /// Both coordinates carry a positive denominator.
    pub open spec fn wf(self) -> bool {
        0 < self@.x.d && 0 < self@.y.d
    }

    /// The point `(x, y)`.
    pub fn new(x: Rat, y: Rat) -> (r: Position)
        ensures
            r@ == (QPoint { x: x@, y: y@ }),
    {
        Position { x, y }
    }
}

/// Ghost model of a screen rectangle.
pub struct RectModel {
    pub left: Q,
    pub top: Q,
    pub width: Q,
    pub height: Q,
}

/// A viewport rectangle: origin and size, in pixels or points depending on
/// the caller. Transient, supplied by the widget layer each frame.
#[derive(Clone, Copy, Debug)]
pub struct ScreenRect {
    pub left: Rat,
    pub top: Rat,
    pub width: Rat,
    pub height: Rat,
}

impl View for ScreenRect {
    type V = RectModel;

    open spec fn view(&self) -> RectModel {
        RectModel { left: self.left@, top: self.top@, width: self.width@, height: self.height@ }
    }
}

/// The geometric center of a rectangle model: `origin + (1/2) * size` per axis.
pub open spec fn rect_center_model(r: RectModel) -> QPoint {
    QPoint {
        x: q_add(r.left, q_mul(q_half(), r.width)),
        y: q_add(r.top, q_mul(q_half(), r.height)),
    }
}

/// Every intermediate of [`ScreenRect::center`] fits in `i128`.
pub open spec fn rect_center_in_range(r: RectModel) -> bool {
    &&& fits(2 * r.width.d)
    &&& add_in_range(r.left, q_mul(q_half(), r.width))
    &&& fits(2 * r.height.d)
    &&& add_in_range(r.top, q_mul(q_half(), r.height))
}

impl ScreenRect {
    /// Every field carries a positive denominator.
    pub open spec fn wf(self) -> bool {
        0 < self@.left.d && 0 < self@.top.d && 0 < self@.width.d && 0 < self@.height.d
    }

    /// The rectangle with the given origin and size.
    pub fn new(left: Rat, top: Rat, width: Rat, height: Rat) -> (r: ScreenRect)
        ensures
            r@ == (RectModel { left: left@, top: top@, width: width@, height: height@ }),
    {
        ScreenRect { left, top, width, height }
    }

    /// The rectangle's geometric center, if every intermediate fits in
    /// `i128`.
    pub fn try_center(&self) -> (r: Option<Position>)
        requires
            self.wf(),
        ensures
            r matches Some(p) ==> p@ == rect_center_model(self@) && p.wf(),
            rect_center_in_range(self@) ==> r is Some,
    {
        let hw = match self.width.try_half() {
            Some(v) => v,
            None => {
                return None;
            },
        };
        let hh = match self.height.try_half() {
            Some(v) => v,
            None => {
                return None;
            },
        };
        let x = match self.left.try_add(hw) {
            Some(v) => v,
            None => {
                return None;
            },
        };
        let y = match self.top.try_add(hh) {
            Some(v) => v,
            None => {
                return None;
            },
        };
        Some(Position { x, y })
    }

    /// The rectangle's geometric center.
    pub fn center(&self) -> (r: Position)
        requires
            self.wf(),
            rect_center_in_range(self@),
        ensures
            r@ == rect_center_model(self@),
            r.wf(),
    {
        match self.try_center() {
            Some(p) => p,
            None => unreached(),
        }
    }
}

/// Centered-space mapping model: each coordinate scaled by the
/// pixels-per-point factor. Absolute values are not meaningful on their
/// own; the controller only ever takes differences of two such points.
pub open spec fn centered_model(pixels_per_point: Q, p: QPoint) -> QPoint {
    QPoint { x: q_mul(p.x, pixels_per_point), y: q_mul(p.y, pixels_per_point) }
}

/// Every intermediate of [`to_centered_space`] fits in `i128`.
pub open spec fn centered_in_range(pixels_per_point: Q, p: QPoint) -> bool {
    &&& mul_in_range(p.x, pixels_per_point)
    &&& mul_in_range(p.y, pixels_per_point)
}

/// Centered-space translation, if every intermediate fits in `i128`.
pub fn try_to_centered_space(pixels_per_point: Rat, p: Position) -> (r: Option<Position>)
    requires
        pixels_per_point.wf(),
        p.wf(),
    ensures
        r matches Some(c) ==> c@ == centered_model(pixels_per_point@, p@) && c.wf(),
        centered_in_range(pixels_per_point@, p@) ==> r is Some,
{
    let x = match p.x.try_mul(pixels_per_point) {
        Some(v) => v,
        None => {
            return None;
        },
    };
    let y = match p.y.try_mul(pixels_per_point) {
        Some(v) => v,
        None => {
            return None;
        },
    };
    Some(Position { x, y })
}

/// Translate a screen position (logical points) into the centered space the
/// pan and recenter gestures measure their differences in.
pub fn to_centered_space(pixels_per_point: Rat, p: Position) -> (r: Position)
    requires
        pixels_per_point.wf(),
        p.wf(),
        centered_in_range(pixels_per_point@, p@),
    ensures
        r@ == centered_model(pixels_per_point@, p@),
        r.wf(),
{
    match try_to_centered_space(pixels_per_point, p) {
        Some(c) => c,
        None => unreached(),
    }
}

/// One axis of the viewport-to-fractal-center formula:
/// `center + origin / zoom + (1/2) * size / zoom`.
pub open spec fn fractal_axis_model(center: Q, origin: Q, size: Q, zoom: Q) -> Q {
    q_add(q_add(center, q_div(origin, zoom)), q_div(q_mul(q_half(), size), zoom))
}

/// Every intermediate of one [`fractal_axis_model`] computation fits in `i128`.
pub open spec fn fractal_axis_in_range(center: Q, origin: Q, size: Q, zoom: Q) -> bool {
    &&& div_in_range(origin, zoom)
    &&& add_in_range(center, q_div(origin, zoom))
    &&& fits(2 * size.d)
    &&& div_in_range(q_mul(q_half(), size), zoom)
    &&& add_in_range(q_add(center, q_div(origin, zoom)), q_div(q_mul(q_half(), size), zoom))
}

/// Both axes of [`fractal_center_for_viewport`] stay in range.
pub open spec fn fractal_center_in_range(s: crate::state::ViewModel, vp: RectModel) -> bool {
    &&& fractal_axis_in_range(s.center_x, vp.left, vp.width, s.zoom)
    &&& fractal_axis_in_range(s.center_y, vp.top, vp.height, s.zoom)
}

/// One axis of the fractal-center computation, if every intermediate fits
/// in `i128`.
fn try_fractal_axis(center: Rat, origin: Rat, size: Rat, zoom: Rat) -> (r: Option<Rat>)
    requires
        center.wf(),
        origin.wf(),
        size.wf(),
        zoom.wf(),
        q_is_pos(zoom@),
    ensures
        r matches Some(v) ==> v@ == fractal_axis_model(center@, origin@, size@, zoom@) && v.wf(),
        fractal_axis_in_range(center@, origin@, size@, zoom@) ==> r is Some,
{
    proof {
        lemma_pos_nonzero(zoom@);
    }
    let edge = match origin.try_div(zoom) {
        Some(v) => v,
        None => {
            return None;
        },
    };
    let shifted = match center.try_add(edge) {
        Some(v) => v,
        None => {
            return None;
        },
    };
    let half_size = match size.try_half() {
        Some(v) => v,
        None => {
            return None;
        },
    };
    let centering = match half_size.try_div(zoom) {
        Some(v) => v,
        None => {
            return None;
        },
    };
    match shifted.try_add(centering) {
        Some(v) => Some(v),
        None => None,
    }
}

/// The fractal-center mapping, if every intermediate fits in `i128`.
pub fn try_fractal_center_for_viewport(state: &ViewState, viewport: &ScreenRect) -> (r: Option<
    Position,
>)
    requires
        state.wf(),
        viewport.wf(),
    ensures
        r matches Some(p) ==> p@.x == fractal_axis_model(
            state@.center_x,
            viewport@.left,
            viewport@.width,
            state@.zoom,
        ) && p@.y == fractal_axis_model(
            state@.center_y,
            viewport@.top,
            viewport@.height,
            state@.zoom,
        ) && p.wf(),
        fractal_center_in_range(state@, viewport@) ==> r is Some,
{
    let x = match try_fractal_axis(state.center_x, viewport.left, viewport.width, state.zoom) {
        Some(v) => v,
        None => {
            return None;
        },
    };
    let y = match try_fractal_axis(state.center_y, viewport.top, viewport.height, state.zoom) {
        Some(v) => v,
        None => {
            return None;
        },
    };
    Some(Position { x, y })
}

/// The fractal-space point the shader treats as the reference for the
/// viewport being drawn: per axis `center + origin / zoom + (1/2) * size / zoom`.
/// A zero-size viewport is legal and yields the unshifted corner point.
pub fn fractal_center_for_viewport(state: &ViewState, viewport: &ScreenRect) -> (r: Position)
    requires
        state.wf(),
        viewport.wf(),
        fractal_center_in_range(state@, viewport@),
    ensures
        r@.x == fractal_axis_model(state@.center_x, viewport@.left, viewport@.width, state@.zoom),
        r@.y == fractal_axis_model(state@.center_y, viewport@.top, viewport@.height, state@.zoom),
        r.wf(),
{
    match try_fractal_center_for_viewport(state, viewport) {
        Some(p) => p,
        None => unreached(),
    }
}

/// With a viewport of zero origin and zero size the fractal center is the
/// state's center itself: both shift terms vanish.
pub proof fn lemma_viewport_zero_rect(center: Q, zoom: Q)
    requires
        0 < center.d,
        0 < zoom.d,
        q_is_pos(zoom),
    ensures
        q_eq(fractal_axis_model(center, q_int(0), q_int(0), zoom), center),
{
    let v = fractal_axis_model(center, q_int(0), q_int(0), zoom);
    assert(q_eq(v, center)) by (nonlinear_arith)
        requires
            v == fractal_axis_model(center, q_int(0), q_int(0), zoom),
            0 < center.d,
            0 < zoom.d,
            q_is_pos(zoom),
    ;
}

/// With a viewport whose origin is zero the origin term vanishes: the
/// fractal center is `center + (1/2) * size / zoom` exactly.
pub proof fn lemma_viewport_origin_zero(center: Q, size: Q, zoom: Q)
    requires
        0 < center.d,
        0 < size.d,
        0 < zoom.d,
        q_is_pos(zoom),
    ensures
        q_eq(
            fractal_axis_model(center, q_int(0), size, zoom),
            q_add(center, q_div(q_mul(q_half(), size), zoom)),
        ),
{
    lemma_pos_nonzero(zoom);
    let t0 = q_div(q_int(0), zoom);
    let t1 = q_div(q_mul(q_half(), size), zoom);
    assert(t0.n == 0 && t0.d != 0);
    assert(t1.d != 0) by (nonlinear_arith)
        requires
            t1 == q_div(q_mul(q_half(), size), zoom),
            0 < size.d,
            zoom.n != 0,
    ;
    let u = q_add(center, t0);
    crate::rat::lemma_add_zero_num(center, t0);
    assert(u.d != 0) by (nonlinear_arith)
        requires
            u == q_add(center, t0),
            0 < center.d,
            t0.d != 0,
    ;
    crate::rat::lemma_add_congr_left(u, center, t1);
}

} // verus!
