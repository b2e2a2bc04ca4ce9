//! The interaction controller.
//!
//! Each frame the widget layer hands over one input sample; the controller
//! turns it into the next view state under a fixed policy. At most one
//! gesture is acted on per frame, chosen in strict priority order: scroll up
//! (`zoom` times `11/10`), scroll down (`zoom` times `9/10`), primary
//! double-click (`zoom` times `6/5`), primary single click (recenter on the
//! clicked point), secondary double-click (`zoom` divided by `6/5`). A zero
//! scroll delta fires neither scroll rule and falls through to the click
//! rules. Independently of that choice, a drag with a nonzero delta pans the
//! center by the drag in pixels divided by the (already updated) zoom, with
//! the vertical axis inverted: screen y grows downward, fractal y upward.
//!
//! The controller never blocks: it is a pure function of the current state,
//! the input sample, the viewport rectangle and the pixels-per-point scale,
//! and [`apply_input`](ViewState::apply_input) returns exactly
//! [`apply_input_model`] of its arguments.

use vstd::prelude::*;
use crate::rat::{
    Q, Rat, q_add, q_div, q_eq, q_int, q_is_neg, q_is_pos, q_is_zero, q_mul, q_sub,
    add_in_range, div_in_range, mul_in_range, sub_in_range,
    lemma_add_sub_cancel, lemma_add_zero_num, lemma_div_double_halves, lemma_div_pos,
    lemma_mul_pos, lemma_pos_nonzero, lemma_sub_sub_cancel, lemma_sub_zero_num,
};
use crate::state::{ViewModel, ViewState};
use crate::mapper::{
    Position, QPoint, RectModel, ScreenRect, centered_in_range, centered_model,
    rect_center_in_range, rect_center_model, try_to_centered_space,
};

verus! {

/// Ghost model of one frame's input sample.
pub struct InputModel {
    pub scroll_y: Q,
    pub primary_clicked: bool,
    pub primary_double_clicked: bool,
    pub secondary_double_clicked: bool,
    pub pointer: Option<QPoint>,
    pub dragged: bool,
    pub drag_x: Q,
    pub drag_y: Q,
    pub pixels_per_point: Q,
}

impl InputModel {
    /// Validity of an input model: positive denominators everywhere.
    pub open spec fn wf(self) -> bool {
        &&& 0 < self.scroll_y.d
        &&& 0 < self.drag_x.d
        &&& 0 < self.drag_y.d
        &&& 0 < self.pixels_per_point.d
        &&& self.pointer matches Some(p) ==> 0 < p.x.d && 0 < p.y.d
    }
}

/// One frame's detected input, as the widget layer sampled it.
#[derive(Clone, Copy, Debug)]
pub struct InputSample {
    /// Vertical smooth-scroll delta; its sign picks the scroll rule.
    pub scroll_y: Rat,
    /// Primary button clicked this frame (and it was not a double-click).
    pub primary_clicked: bool,
    /// Primary button double-clicked this frame.
    pub primary_double_clicked: bool,
    /// Secondary button double-clicked this frame.
    pub secondary_double_clicked: bool,
    /// Pointer interaction position in screen points, when available.
    pub pointer: Option<Position>,
    /// The pointer is being dragged.
    pub dragged: bool,
    /// Drag delta, x component, in screen points.
    pub drag_x: Rat,
    /// Drag delta, y component, in screen points.
    pub drag_y: Rat,
    /// Physical pixels per logical point.
    pub pixels_per_point: Rat,
}

impl View for InputSample {
    type V = InputModel;

    open spec fn view(&self) -> InputModel {
        InputModel {
            scroll_y: self.scroll_y@,
            primary_clicked: self.primary_clicked,
            primary_double_clicked: self.primary_double_clicked,
            secondary_double_clicked: self.secondary_double_clicked,
            pointer: match self.pointer {
                Some(p) => Some(p@),
                None => None,
            },
            dragged: self.dragged,
            drag_x: self.drag_x@,
            drag_y: self.drag_y@,
            pixels_per_point: self.pixels_per_point@,
        }
    }
}

impl InputSample {
    /// Every scalar carries a positive denominator.
    pub open spec fn wf(self) -> bool {
        self@.wf()
    }

    /// A sample with no gesture at all: zero scroll, no clicks, no drag,
    /// unit scale. Fields are public, so any sample can be built directly;
    /// this is the neutral starting point.
    pub fn none() -> (r: InputSample)
        ensures
            r@ == (InputModel {
                scroll_y: q_int(0),
                primary_clicked: false,
                primary_double_clicked: false,
                secondary_double_clicked: false,
                pointer: None,
                dragged: false,
                drag_x: q_int(0),
                drag_y: q_int(0),
                pixels_per_point: q_int(1),
            }),
            r.wf(),
    {
        InputSample {
            scroll_y: Rat::from_int(0),
            primary_clicked: false,
            primary_double_clicked: false,
            secondary_double_clicked: false,
            pointer: None,
            dragged: false,
            drag_x: Rat::from_int(0),
            drag_y: Rat::from_int(0),
            pixels_per_point: Rat::from_int(1),
        }
    }
}

/// Scroll-up zoom factor: `11/10`.
pub open spec fn zoom_in_step() -> Q {
    Q { n: 11, d: 10 }
}

/// Scroll-down zoom factor: `9/10`.
pub open spec fn zoom_out_step() -> Q {
    Q { n: 9, d: 10 }
}

/// Double-click zoom factor: `6/5`, i.e. one fifth in or out.
pub open spec fn click_zoom_step() -> Q {
    Q { n: 6, d: 5 }
}

/// The state with only the zoom replaced.
pub open spec fn with_zoom(s: ViewModel, z: Q) -> ViewModel {
    ViewModel { zoom: z, ..s }
}

/// The state with only the center replaced.
pub open spec fn with_center(s: ViewModel, cx: Q, cy: Q) -> ViewModel {
    ViewModel { center_x: cx, center_y: cy, ..s }
}

/// The pointer position a click acts on: the sampled interaction position,
/// or the screen origin when none is available.
pub open spec fn effective_pointer(inp: InputModel) -> QPoint {
    match inp.pointer {
        Some(p) => p,
        None => QPoint { x: q_int(0), y: q_int(0) },
    }
}

/// Recenter on a primary click: the fractal point under the pointer becomes
/// the new center. With `cur` and `tgt` the centered-space images of the
/// viewport center and of the clicked point, the center moves by
/// `(cur - tgt) / zoom`, added on x and subtracted on y (the vertical axis
/// is inverted between screen space and fractal space).
pub open spec fn recenter_model(s: ViewModel, inp: InputModel, rect: RectModel) -> ViewModel {
    let cur = centered_model(inp.pixels_per_point, rect_center_model(rect));
    let tgt = centered_model(inp.pixels_per_point, effective_pointer(inp));
    let dx = q_div(q_sub(cur.x, tgt.x), s.zoom);
    let dy = q_div(q_sub(cur.y, tgt.y), s.zoom);
    with_center(s, q_add(s.center_x, dx), q_sub(s.center_y, dy))
}

/// The gesture decision tree: first matching rule wins, later rules are
/// skipped even when their condition also holds this frame.
pub open spec fn gesture_model(s: ViewModel, inp: InputModel, rect: RectModel) -> ViewModel {
    if q_is_pos(inp.scroll_y) {
        with_zoom(s, q_mul(s.zoom, zoom_in_step()))
    } else if q_is_neg(inp.scroll_y) {
        with_zoom(s, q_mul(s.zoom, zoom_out_step()))
    } else if inp.primary_double_clicked {
        with_zoom(s, q_mul(s.zoom, click_zoom_step()))
    } else if inp.primary_clicked {
        recenter_model(s, inp, rect)
    } else if inp.secondary_double_clicked {
        with_zoom(s, q_div(s.zoom, click_zoom_step()))
    } else {
        s
    }
}

/// A drag acts only when its delta has a nonzero squared magnitude, i.e.
/// some component is nonzero.
pub open spec fn drag_active(inp: InputModel) -> bool {
    inp.dragged && !(q_is_zero(inp.drag_x) && q_is_zero(inp.drag_y))
}

/// The x component of the pan a drag causes at zoom `z`: the drag delta
/// scaled to pixels, divided by the zoom.
pub open spec fn drag_shift_x(inp: InputModel, z: Q) -> Q {
    q_div(q_mul(inp.drag_x, inp.pixels_per_point), z)
}

/// The y component of the pan a drag causes at zoom `z`.
pub open spec fn drag_shift_y(inp: InputModel, z: Q) -> Q {
    q_div(q_mul(inp.drag_y, inp.pixels_per_point), z)
}

/// Pan by the drag delta: added on x, subtracted on y (inverted axis),
/// against the state's current zoom.
pub open spec fn drag_model(s: ViewModel, inp: InputModel) -> ViewModel {
    if drag_active(inp) {
        with_center(
            s,
            q_add(s.center_x, drag_shift_x(inp, s.zoom)),
            q_sub(s.center_y, drag_shift_y(inp, s.zoom)),
        )
    } else {
        s
    }
}

/// One whole frame of interaction: the gesture decision tree, then the pan,
/// which divides by the zoom the gesture may just have updated.
pub open spec fn apply_input_model(s: ViewModel, inp: InputModel, rect: RectModel) -> ViewModel {
    drag_model(gesture_model(s, inp, rect), inp)
}

/// Every intermediate of the recenter computation fits in `i128`.
pub open spec fn recenter_in_range(s: ViewModel, inp: InputModel, rect: RectModel) -> bool {
    let cur = centered_model(inp.pixels_per_point, rect_center_model(rect));
    let tgt = centered_model(inp.pixels_per_point, effective_pointer(inp));
    let dx = q_div(q_sub(cur.x, tgt.x), s.zoom);
    let dy = q_div(q_sub(cur.y, tgt.y), s.zoom);
    &&& rect_center_in_range(rect)
    &&& centered_in_range(inp.pixels_per_point, rect_center_model(rect))
    &&& centered_in_range(inp.pixels_per_point, effective_pointer(inp))
    &&& sub_in_range(cur.x, tgt.x)
    &&& sub_in_range(cur.y, tgt.y)
    &&& div_in_range(q_sub(cur.x, tgt.x), s.zoom)
    &&& div_in_range(q_sub(cur.y, tgt.y), s.zoom)
    &&& add_in_range(s.center_x, dx)
    &&& sub_in_range(s.center_y, dy)
}

/// Every intermediate of the chosen gesture rule fits in `i128`.
pub open spec fn gesture_in_range(s: ViewModel, inp: InputModel, rect: RectModel) -> bool {
    if q_is_pos(inp.scroll_y) {
        mul_in_range(s.zoom, zoom_in_step())
    } else if q_is_neg(inp.scroll_y) {
        mul_in_range(s.zoom, zoom_out_step())
    } else if inp.primary_double_clicked {
        mul_in_range(s.zoom, click_zoom_step())
    } else if inp.primary_clicked {
        recenter_in_range(s, inp, rect)
    } else if inp.secondary_double_clicked {
        div_in_range(s.zoom, click_zoom_step())
    } else {
        true
    }
}

/// Every intermediate of the pan against the gesture-updated state `s1`
/// fits in `i128`.
pub open spec fn drag_in_range(s1: ViewModel, inp: InputModel) -> bool {
    if drag_active(inp) {
        &&& mul_in_range(inp.drag_x, inp.pixels_per_point)
        &&& mul_in_range(inp.drag_y, inp.pixels_per_point)
        &&& div_in_range(q_mul(inp.drag_x, inp.pixels_per_point), s1.zoom)
        &&& div_in_range(q_mul(inp.drag_y, inp.pixels_per_point), s1.zoom)
        &&& add_in_range(s1.center_x, drag_shift_x(inp, s1.zoom))
        &&& sub_in_range(s1.center_y, drag_shift_y(inp, s1.zoom))
    } else {
        true
    }
}

/// Every intermediate of one whole [`ViewState::apply_input`] frame fits in
/// `i128`. This is the machine-width precondition; it holds of any input
/// whose scalars are modest, and the neutral sample satisfies it trivially.
pub open spec fn apply_in_range(s: ViewModel, inp: InputModel, rect: RectModel) -> bool {
    &&& gesture_in_range(s, inp, rect)
    &&& drag_in_range(gesture_model(s, inp, rect), inp)
}

impl ViewState {
    /// Consume one frame's input, if every intermediate fits in `i128`:
    /// machine-width overflow is the only failure, and on any input whose
    /// intermediates stay in range the next state is owed and is exactly
    /// [`apply_input_model`].
    pub fn try_apply_input(&self, input: &InputSample, rect: &ScreenRect) -> (r: Option<ViewState>)
        requires
            self.wf(),
            input.wf(),
            rect.wf(),
        ensures
            r matches Some(v) ==> v@ == apply_input_model(self@, input@, rect@) && v.wf(),
            apply_in_range(self@, input@, rect@) ==> r is Some,
    {
        let mut s = *self;
        if input.scroll_y.is_pos() {
            s.zoom = match s.zoom.try_mul(Rat::new(11, 10)) {
                Some(z) => z,
                None => {
                    return None;
                },
            };
            proof {
                lemma_mul_pos(self@.zoom, zoom_in_step());
            }
        } else if input.scroll_y.is_neg() {
            s.zoom = match s.zoom.try_mul(Rat::new(9, 10)) {
                Some(z) => z,
                None => {
                    return None;
                },
            };
            proof {
                lemma_mul_pos(self@.zoom, zoom_out_step());
            }
        } else if input.primary_double_clicked {
            s.zoom = match s.zoom.try_mul(Rat::new(6, 5)) {
                Some(z) => z,
                None => {
                    return None;
                },
            };
            proof {
                lemma_mul_pos(self@.zoom, click_zoom_step());
            }
        } else if input.primary_clicked {
            proof {
                lemma_pos_nonzero(self@.zoom);
            }
            let pointer = match input.pointer {
                Some(p) => p,
                None => Position::new(Rat::from_int(0), Rat::from_int(0)),
            };
            let c = match rect.try_center() {
                Some(v) => v,
                None => {
                    return None;
                },
            };
            let cur = match try_to_centered_space(input.pixels_per_point, c) {
                Some(v) => v,
                None => {
                    return None;
                },
            };
            let tgt = match try_to_centered_space(input.pixels_per_point, pointer) {
                Some(v) => v,
                None => {
                    return None;
                },
            };
            let diff_x = match cur.x.try_sub(tgt.x) {
                Some(v) => v,
                None => {
                    return None;
                },
            };
            let diff_y = match cur.y.try_sub(tgt.y) {
                Some(v) => v,
                None => {
                    return None;
                },
            };
            let dx = match diff_x.try_div(s.zoom) {
                Some(v) => v,
                None => {
                    return None;
                },
            };
            let dy = match diff_y.try_div(s.zoom) {
                Some(v) => v,
                None => {
                    return None;
                },
            };
            s.center_x = match s.center_x.try_add(dx) {
                Some(v) => v,
                None => {
                    return None;
                },
            };
            s.center_y = match s.center_y.try_sub(dy) {
                Some(v) => v,
                None => {
                    return None;
                },
            };
        } else if input.secondary_double_clicked {
            proof {
                lemma_pos_nonzero(click_zoom_step());
                lemma_div_pos(self@.zoom, click_zoom_step());
            }
            s.zoom = match s.zoom.try_div(Rat::new(6, 5)) {
                Some(z) => z,
                None => {
                    return None;
                },
            };
        }
        if input.dragged && !(input.drag_x.is_zero() && input.drag_y.is_zero()) {
            proof {
                lemma_pos_nonzero(s@.zoom);
            }
            let px = match input.drag_x.try_mul(input.pixels_per_point) {
                Some(v) => v,
                None => {
                    return None;
                },
            };
            let py = match input.drag_y.try_mul(input.pixels_per_point) {
                Some(v) => v,
                None => {
                    return None;
                },
            };
            let sx = match px.try_div(s.zoom) {
                Some(v) => v,
                None => {
                    return None;
                },
            };
            let sy = match py.try_div(s.zoom) {
                Some(v) => v,
                None => {
                    return None;
                },
            };
            s.center_x = match s.center_x.try_add(sx) {
                Some(v) => v,
                None => {
                    return None;
                },
            };
            s.center_y = match s.center_y.try_sub(sy) {
                Some(v) => v,
                None => {
                    return None;
                },
            };
        }
        Some(s)
    }

    /// Consume one frame's input and produce the next state: exactly
    /// [`apply_input_model`] of the current state, the sample and the
    /// viewport rectangle (in points). Pure; never blocks; keeps the zoom
    /// positive.
    pub fn apply_input(&self, input: &InputSample, rect: &ScreenRect) -> (r: ViewState)
        requires
            self.wf(),
            input.wf(),
            rect.wf(),
            apply_in_range(self@, input@, rect@),
        ensures
            r@ == apply_input_model(self@, input@, rect@),
            r.wf(),
    {
        match self.try_apply_input(input, rect) {
            Some(v) => v,
            None => unreached(),
        }
    }
}

/// Zoom monotonicity, multiplicative part: two same-direction scroll frames
/// scale the zoom by the square of the step, `121/100` up and `81/100`
/// down, and touch nothing else.
pub proof fn lemma_scroll_multiplicative(s: ViewModel, inp: InputModel, rect: RectModel)
    requires
        q_is_pos(inp.scroll_y) || q_is_neg(inp.scroll_y),
    ensures
        gesture_model(gesture_model(s, inp, rect), inp, rect) == with_zoom(
            s,
            q_mul(
                s.zoom,
                if q_is_pos(inp.scroll_y) {
                    q_mul(zoom_in_step(), zoom_in_step())
                } else {
                    q_mul(zoom_out_step(), zoom_out_step())
                },
            ),
        ),
{
    let f = if q_is_pos(inp.scroll_y) { zoom_in_step() } else { zoom_out_step() };
    assert(q_mul(q_mul(s.zoom, f), f) == q_mul(s.zoom, q_mul(f, f))) by (nonlinear_arith)
        requires
            f == (if q_is_pos(inp.scroll_y) { zoom_in_step() } else { zoom_out_step() }),
    ;
}

/// Zoom monotonicity, order independence: two scroll frames produce the
/// same state in either order, whatever the two directions.
pub proof fn lemma_scroll_order_independent(
    s: ViewModel,
    i1: InputModel,
    i2: InputModel,
    rect: RectModel,
)
    requires
        q_is_pos(i1.scroll_y) || q_is_neg(i1.scroll_y),
        q_is_pos(i2.scroll_y) || q_is_neg(i2.scroll_y),
    ensures
        gesture_model(gesture_model(s, i1, rect), i2, rect) == gesture_model(
            gesture_model(s, i2, rect),
            i1,
            rect,
        ),
{
    let f1 = if q_is_pos(i1.scroll_y) { zoom_in_step() } else { zoom_out_step() };
    let f2 = if q_is_pos(i2.scroll_y) { zoom_in_step() } else { zoom_out_step() };
    assert(q_mul(q_mul(s.zoom, f1), f2) == q_mul(q_mul(s.zoom, f2), f1)) by (nonlinear_arith)
        requires
            f1 == (if q_is_pos(i1.scroll_y) { zoom_in_step() } else { zoom_out_step() }),
            f2 == (if q_is_pos(i2.scroll_y) { zoom_in_step() } else { zoom_out_step() }),
    ;
}

/// Double-click zoom round-trip: a primary double-click followed by a
/// secondary double-click restores the zoom exactly (the rationals are
/// exact, so no tolerance is needed), and no other field moves.
pub proof fn lemma_double_click_round_trip(
    s: ViewModel,
    i1: InputModel,
    i2: InputModel,
    rect: RectModel,
)
    requires
        s.wf(),
        !q_is_pos(i1.scroll_y),
        !q_is_neg(i1.scroll_y),
        i1.primary_double_clicked,
        !q_is_pos(i2.scroll_y),
        !q_is_neg(i2.scroll_y),
        !i2.primary_double_clicked,
        !i2.primary_clicked,
        i2.secondary_double_clicked,
    ensures
        q_eq(gesture_model(gesture_model(s, i1, rect), i2, rect).zoom, s.zoom),
        gesture_model(gesture_model(s, i1, rect), i2, rect) == with_zoom(
            s,
            gesture_model(gesture_model(s, i1, rect), i2, rect).zoom,
        ),
{
    let z2 = gesture_model(gesture_model(s, i1, rect), i2, rect).zoom;
    assert(q_eq(z2, s.zoom)) by (nonlinear_arith)
        requires
            z2 == q_div(q_mul(s.zoom, click_zoom_step()), click_zoom_step()),
    ;
}

/// Recenter correctness: a primary click moves the center in fractal space
/// by exactly `(cur - tgt) / zoom`, where `cur` and `tgt` are the
/// centered-space images of the viewport center and of the clicked point;
/// positive on x, sign-inverted on y. The zoom does not move.
pub proof fn lemma_recenter_shift(s: ViewModel, inp: InputModel, rect: RectModel)
    requires
        s.wf(),
        inp.wf(),
        0 < rect.left.d,
        0 < rect.top.d,
        0 < rect.width.d,
        0 < rect.height.d,
        !q_is_pos(inp.scroll_y),
        !q_is_neg(inp.scroll_y),
        !inp.primary_double_clicked,
        inp.primary_clicked,
    ensures
        ({
            let s2 = gesture_model(s, inp, rect);
            let cur = centered_model(inp.pixels_per_point, rect_center_model(rect));
            let tgt = centered_model(inp.pixels_per_point, effective_pointer(inp));
            &&& q_eq(q_sub(s2.center_x, s.center_x), q_div(q_sub(cur.x, tgt.x), s.zoom))
            &&& q_eq(q_sub(s.center_y, s2.center_y), q_div(q_sub(cur.y, tgt.y), s.zoom))
            &&& s2.zoom == s.zoom
        }),
{
    let cur = centered_model(inp.pixels_per_point, rect_center_model(rect));
    let tgt = centered_model(inp.pixels_per_point, effective_pointer(inp));
    let dx = q_div(q_sub(cur.x, tgt.x), s.zoom);
    let dy = q_div(q_sub(cur.y, tgt.y), s.zoom);
    lemma_pos_nonzero(s.zoom);
    let ep = effective_pointer(inp);
    assert(0 < ep.x.d && 0 < ep.y.d);
    assert(cur.x.d != 0 && cur.y.d != 0 && tgt.x.d != 0 && tgt.y.d != 0) by (nonlinear_arith)
        requires
            cur == centered_model(inp.pixels_per_point, rect_center_model(rect)),
            tgt == centered_model(inp.pixels_per_point, ep),
            0 < rect.left.d,
            0 < rect.top.d,
            0 < rect.width.d,
            0 < rect.height.d,
            0 < ep.x.d,
            0 < ep.y.d,
            0 < inp.pixels_per_point.d,
    ;
    assert(dx.d != 0 && dy.d != 0) by (nonlinear_arith)
        requires
            dx == q_div(q_sub(cur.x, tgt.x), s.zoom),
            dy == q_div(q_sub(cur.y, tgt.y), s.zoom),
            cur.x.d != 0,
            cur.y.d != 0,
            tgt.x.d != 0,
            tgt.y.d != 0,
            s.zoom.n != 0,
    ;
    lemma_add_sub_cancel(s.center_x, dx);
    lemma_sub_sub_cancel(s.center_y, dy);
}

/// Recenter at the viewport center: clicking exactly at the viewport's
/// geometric center leaves the center unchanged (up to `q_eq`).
pub proof fn lemma_recenter_at_center(s: ViewModel, inp: InputModel, rect: RectModel)
    requires
        s.wf(),
        inp.wf(),
        0 < rect.left.d,
        0 < rect.top.d,
        0 < rect.width.d,
        0 < rect.height.d,
        !q_is_pos(inp.scroll_y),
        !q_is_neg(inp.scroll_y),
        !inp.primary_double_clicked,
        inp.primary_clicked,
        effective_pointer(inp) == rect_center_model(rect),
    ensures
        q_eq(gesture_model(s, inp, rect).center_x, s.center_x),
        q_eq(gesture_model(s, inp, rect).center_y, s.center_y),
        gesture_model(s, inp, rect).zoom == s.zoom,
{
    let cur = centered_model(inp.pixels_per_point, rect_center_model(rect));
    let dx = q_div(q_sub(cur.x, cur.x), s.zoom);
    let dy = q_div(q_sub(cur.y, cur.y), s.zoom);
    lemma_pos_nonzero(s.zoom);
    assert(cur.x.d != 0 && cur.y.d != 0) by (nonlinear_arith)
        requires
            cur == centered_model(inp.pixels_per_point, rect_center_model(rect)),
            0 < rect.left.d,
            0 < rect.top.d,
            0 < rect.width.d,
            0 < rect.height.d,
            0 < inp.pixels_per_point.d,
    ;
    assert(dx.n == 0 && dx.d != 0 && dy.n == 0 && dy.d != 0) by (nonlinear_arith)
        requires
            dx == q_div(q_sub(cur.x, cur.x), s.zoom),
            dy == q_div(q_sub(cur.y, cur.y), s.zoom),
            cur.x.d != 0,
            cur.y.d != 0,
            s.zoom.n != 0,
    ;
    lemma_add_zero_num(s.center_x, dx);
    lemma_sub_zero_num(s.center_y, dy);
}

/// Drag correctness: an active drag pans the center by exactly
/// `(drag * pixels_per_point) / zoom`, added on x and subtracted on y, and
/// touches nothing else.
pub proof fn lemma_drag_shift(s: ViewModel, inp: InputModel)
    requires
        s.wf(),
        inp.wf(),
        drag_active(inp),
    ensures
        ({
            let s2 = drag_model(s, inp);
            &&& q_eq(q_sub(s2.center_x, s.center_x), drag_shift_x(inp, s.zoom))
            &&& q_eq(q_sub(s.center_y, s2.center_y), drag_shift_y(inp, s.zoom))
            &&& s2.zoom == s.zoom
        }),
{
    let dx = drag_shift_x(inp, s.zoom);
    let dy = drag_shift_y(inp, s.zoom);
    lemma_pos_nonzero(s.zoom);
    assert(dx.d != 0 && dy.d != 0) by (nonlinear_arith)
        requires
            dx == drag_shift_x(inp, s.zoom),
            dy == drag_shift_y(inp, s.zoom),
            inp.drag_x.d != 0,
            inp.drag_y.d != 0,
            inp.pixels_per_point.d != 0,
            s.zoom.n != 0,
    ;
    lemma_add_sub_cancel(s.center_x, dx);
    lemma_sub_sub_cancel(s.center_y, dy);
}

/// Drag/zoom independence: for the same drag, doubling the zoom halves the
/// resulting center shift, on both axes.
pub proof fn lemma_drag_zoom_independence(inp: InputModel, z: Q)
    requires
        inp.wf(),
        0 < z.d,
        q_is_pos(z),
    ensures
        q_eq(
            q_mul(q_int(2), drag_shift_x(inp, q_mul(q_int(2), z))),
            drag_shift_x(inp, z),
        ),
        q_eq(
            q_mul(q_int(2), drag_shift_y(inp, q_mul(q_int(2), z))),
            drag_shift_y(inp, z),
        ),
{
    assert(0 < z.n) by (nonlinear_arith)
        requires
            q_is_pos(z),
            0 < z.d,
    ;
    assert(q_mul(inp.drag_x, inp.pixels_per_point).d != 0 && q_mul(
        inp.drag_y,
        inp.pixels_per_point,
    ).d != 0) by (nonlinear_arith)
        requires
            0 < inp.drag_x.d,
            0 < inp.drag_y.d,
            0 < inp.pixels_per_point.d,
    ;
    lemma_div_double_halves(q_mul(inp.drag_x, inp.pixels_per_point), z);
    lemma_div_double_halves(q_mul(inp.drag_y, inp.pixels_per_point), z);
}

/// Priority order: when a frame holds both a nonzero scroll delta and a
/// primary click (single or double), only the scroll rule applies; the
/// center does not move and the zoom takes the scroll factor.
pub proof fn lemma_scroll_wins(s: ViewModel, inp: InputModel, rect: RectModel)
    requires
        q_is_pos(inp.scroll_y) || q_is_neg(inp.scroll_y),
        inp.primary_clicked || inp.primary_double_clicked || inp.secondary_double_clicked,
    ensures
        gesture_model(s, inp, rect) == with_zoom(
            s,
            q_mul(
                s.zoom,
                if q_is_pos(inp.scroll_y) { zoom_in_step() } else { zoom_out_step() },
            ),
        ),
        gesture_model(s, inp, rect).center_x == s.center_x,
        gesture_model(s, inp, rect).center_y == s.center_y,
{
}

} // verus!
