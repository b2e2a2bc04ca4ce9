//! The authoritative view state.
//!
//! One [`ViewState`] value holds everything the renderer needs for one frame:
//! zoom, fractal-space center, Julia constant, fractal kind, quality flag and
//! the color parameters. It is created once with fixed defaults and then
//! mutated only by the interaction controller and by direct edits of its
//! scalar fields from the widget layer. The single invariant is that `zoom`
//! stays strictly positive (every coordinate mapping divides by it); the
//! color parameters carry no cross-field invariant.

use vstd::prelude::*;
use crate::rat::{Q, Rat, q_int, q_is_pos};

verus! {

/// Which escape-time formula the renderer evaluates. The stable integer
/// codes handed to the shader are the declaration ordinals: `Mandelbrot` is
/// `0`, `Julia` is `1`.
#[derive(Clone, Copy, Debug, PartialEq, Eq, Structural)]
pub enum FractalType {
    Mandelbrot,
    Julia,
}

/// Ghost model of a whole [`ViewState`]: every scalar as an exact rational.
pub struct ViewModel {
    pub zoom: Q,
    pub center_x: Q,
    pub center_y: Q,
    pub c_julia_x: Q,
    pub c_julia_y: Q,
    pub fractal_type: FractalType,
    pub high_quality: bool,
    pub brightness: Q,
    pub gamma: Q,
    pub contrast: Q,
    pub r: Q,
    pub g: Q,
    pub b: Q,
}

impl ViewModel {
    /// Validity of a state model: positive denominators everywhere and a
    /// strictly positive zoom.
    pub open spec fn wf(self) -> bool {
        &&& 0 < self.zoom.d
        &&& q_is_pos(self.zoom)
        &&& 0 < self.center_x.d
        &&& 0 < self.center_y.d
        &&& 0 < self.c_julia_x.d
        &&& 0 < self.c_julia_y.d
        &&& 0 < self.brightness.d
        &&& 0 < self.gamma.d
        &&& 0 < self.contrast.d
        &&& 0 < self.r.d
        &&& 0 < self.g.d
        &&& 0 < self.b.d
    }
}

/// The defaults a fresh state is built with: unit zoom, both centers at the
/// origin, Julia formula, high quality on, neutral colors (brightness `0`,
/// gamma `1`, contrast `0`, full `r`, `g`, `b`).
pub open spec fn default_model() -> ViewModel {
    ViewModel {
        zoom: q_int(1),
        center_x: q_int(0),
        center_y: q_int(0),
        c_julia_x: q_int(0),
        c_julia_y: q_int(0),
        fractal_type: FractalType::Julia,
        high_quality: true,
        brightness: q_int(0),
        gamma: q_int(1),
        contrast: q_int(0),
        r: q_int(1),
        g: q_int(1),
        b: q_int(1),
    }
}

/// The mutable record of all parameters needed to render one frame.
#[derive(Clone, Copy, Debug)]
pub struct ViewState {
    /// Scale factor, fractal units per screen unit; always strictly positive.
    pub zoom: Rat,
    /// Fractal-space x coordinate mapped to the viewport center.
    pub center_x: Rat,
    /// Fractal-space y coordinate mapped to the viewport center.
    pub center_y: Rat,
    /// Julia-set constant, x component; meaningful only for [`FractalType::Julia`].
    pub c_julia_x: Rat,
    /// Julia-set constant, y component.
    pub c_julia_y: Rat,
    /// Which escape-time formula the renderer evaluates.
    pub fractal_type: FractalType,
    /// Toggles the renderer's iteration count / antialiasing.
    pub high_quality: bool,
    /// Color parameter, independently adjustable.
    pub brightness: Rat,
    /// Color parameter, conventionally positive but not enforced.
    pub gamma: Rat,
    /// Color parameter, independently adjustable.
    pub contrast: Rat,
    /// Red channel value.
    pub r: Rat,
    /// Green channel value.
    pub g: Rat,
    /// Blue channel value.
    pub b: Rat,
}

impl View for ViewState {
    type V = ViewModel;

    open spec fn view(&self) -> ViewModel {
        ViewModel {
            zoom: self.zoom@,
            center_x: self.center_x@,
            center_y: self.center_y@,
            c_julia_x: self.c_julia_x@,
            c_julia_y: self.c_julia_y@,
            fractal_type: self.fractal_type,
            high_quality: self.high_quality,
            brightness: self.brightness@,
            gamma: self.gamma@,
            contrast: self.contrast@,
            r: self.r@,
            g: self.g@,
            b: self.b@,
        }
    }
}

impl ViewState {
    /// The state invariant: every scalar well formed, `zoom` positive.
    pub open spec fn wf(self) -> bool {
        self@.wf()
    }

    /// A fresh state with the documented defaults.
    pub fn new() -> (r: ViewState)
        ensures
            r@ == default_model(),
            r.wf(),
    {
        ViewState {
            zoom: Rat::from_int(1),
            center_x: Rat::from_int(0),
            center_y: Rat::from_int(0),
            c_julia_x: Rat::from_int(0),
            c_julia_y: Rat::from_int(0),
            fractal_type: FractalType::Julia,
            high_quality: true,
            brightness: Rat::from_int(0),
            gamma: Rat::from_int(1),
            contrast: Rat::from_int(0),
            r: Rat::from_int(1),
            g: Rat::from_int(1),
            b: Rat::from_int(1),
        }
    }
}

} // verus!
