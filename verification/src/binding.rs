//! The render binding.
//!
//! The contract between a [`ViewState`] and a shader-based renderer: which
//! named uniforms the shader is owed, in which order, with which values.
//! [`uniforms`] must be recomputed every frame with no caching, so that any
//! edit of the state is visible on the very next draw; it performs no
//! validation of the values (out-of-range colors are the renderer's
//! concern). The rendering backend itself — program compilation, binding,
//! the one six-vertex draw call per frame — lives outside this library and
//! consumes this list.

use vstd::prelude::*;
use crate::rat::Rat;
use crate::state::{FractalType, ViewState};
use crate::mapper::{
    ScreenRect, fractal_axis_model, fractal_center_in_range, fractal_center_for_viewport,
};

verus! {

/// The name of one shader uniform, in the order the binding emits them.
#[derive(Clone, Copy, Debug, PartialEq, Eq, Structural)]
pub enum UniformName {
    FractalZoom,
    Brightness,
    Gamma,
    Contrast,
    ColorR,
    ColorG,
    ColorB,
    HighQuality,
    FractalKind,
    FractalPosition,
    CJulia,
}

/// The GLSL identifier of each uniform.
pub open spec fn spec_gl_name(n: UniformName) -> Seq<char> {
    match n {
        UniformName::FractalZoom => "u_fractalZoom"@,
        UniformName::Brightness => "u_brightness"@,
        UniformName::Gamma => "u_gamma"@,
        UniformName::Contrast => "u_contrast"@,
        UniformName::ColorR => "u_r"@,
        UniformName::ColorG => "u_g"@,
        UniformName::ColorB => "u_b"@,
        UniformName::HighQuality => "u_highQuality"@,
        UniformName::FractalKind => "u_fractal_type"@,
        UniformName::FractalPosition => "u_fractalPosition"@,
        UniformName::CJulia => "u_cJulia"@,
    }
}

impl UniformName {
    /// The GLSL identifier the shader declares this uniform under.
    pub fn gl_name(&self) -> (s: &'static str)
        ensures
            s@ == spec_gl_name(*self),
    {
        match self {
            UniformName::FractalZoom => "u_fractalZoom",
            UniformName::Brightness => "u_brightness",
            UniformName::Gamma => "u_gamma",
            UniformName::Contrast => "u_contrast",
            UniformName::ColorR => "u_r",
            UniformName::ColorG => "u_g",
            UniformName::ColorB => "u_b",
            UniformName::HighQuality => "u_highQuality",
            UniformName::FractalKind => "u_fractal_type",
            UniformName::FractalPosition => "u_fractalPosition",
            UniformName::CJulia => "u_cJulia",
        }
    }
}

/// The value bound to one uniform: a scalar, a 2-vector, or an integer flag.
#[derive(Clone, Copy, Debug)]
pub enum UniformValue {
    Scalar(Rat),
    Pair(Rat, Rat),
    Flag(i32),
}

/// One named uniform with its value for the frame being drawn.
#[derive(Clone, Copy, Debug)]
pub struct Uniform {
    pub name: UniformName,
    pub value: UniformValue,
}

/// The stable integer code of each fractal kind, as the shader reads it:
/// `Mandelbrot` is `0`, `Julia` is `1` (the declaration ordinals).
pub open spec fn spec_fractal_type_code(t: FractalType) -> i32 {
    match t {
        FractalType::Mandelbrot => 0,
        FractalType::Julia => 1,
    }
}

/// The integer code handed to the shader for a fractal kind.
pub fn fractal_type_code(t: FractalType) -> (c: i32)
    ensures
        c == spec_fractal_type_code(t),
{
    match t {
        FractalType::Mandelbrot => 0,
        FractalType::Julia => 1,
    }
}

/// The uniform set owed for one frame: exactly eleven uniforms, in this
/// fixed order, each pinned to the state's value. The quality flag is `1`
/// when high quality is on, else `0`; the kind is its stable code; the
/// position is the viewport-to-fractal-center mapping.
pub open spec fn uniform_set_matches(
    u: Seq<Uniform>,
    s: crate::state::ViewModel,
    vp: crate::mapper::RectModel,
) -> bool {
    &&& u.len() == 11
    &&& u[0].name == UniformName::FractalZoom
    &&& u[0].value matches UniformValue::Scalar(v) && v@ == s.zoom
    &&& u[1].name == UniformName::Brightness
    &&& u[1].value matches UniformValue::Scalar(v) && v@ == s.brightness
    &&& u[2].name == UniformName::Gamma
    &&& u[2].value matches UniformValue::Scalar(v) && v@ == s.gamma
    &&& u[3].name == UniformName::Contrast
    &&& u[3].value matches UniformValue::Scalar(v) && v@ == s.contrast
    &&& u[4].name == UniformName::ColorR
    &&& u[4].value matches UniformValue::Scalar(v) && v@ == s.r
    &&& u[5].name == UniformName::ColorG
    &&& u[5].value matches UniformValue::Scalar(v) && v@ == s.g
    &&& u[6].name == UniformName::ColorB
    &&& u[6].value matches UniformValue::Scalar(v) && v@ == s.b
    &&& u[7].name == UniformName::HighQuality
    &&& u[7].value matches UniformValue::Flag(f) && f == (if s.high_quality {
        1int
    } else {
        0int
    })
    &&& u[8].name == UniformName::FractalKind
    &&& u[8].value matches UniformValue::Flag(f) && f == spec_fractal_type_code(s.fractal_type)
    &&& u[9].name == UniformName::FractalPosition
    &&& u[9].value matches UniformValue::Pair(x, y) && x@ == fractal_axis_model(
        s.center_x,
        vp.left,
        vp.width,
        s.zoom,
    ) && y@ == fractal_axis_model(s.center_y, vp.top, vp.height, s.zoom)
    &&& u[10].name == UniformName::CJulia
    &&& u[10].value matches UniformValue::Pair(x, y) && x@ == s.c_julia_x && y@ == s.c_julia_y
}

/// The full uniform set for one frame, if the position mapping fits in
/// `i128`: machine-width overflow of that mapping is the only failure.
pub fn try_uniforms(state: &ViewState, viewport: &ScreenRect) -> (r: Option<Vec<Uniform>>)
    requires
        state.wf(),
        viewport.wf(),
    ensures
        r matches Some(u) ==> uniform_set_matches(u@, state@, viewport@),
        fractal_center_in_range(state@, viewport@) ==> r is Some,
{
    let position = match crate::mapper::try_fractal_center_for_viewport(state, viewport) {
        Some(p) => p,
        None => {
            return None;
        },
    };
    let quality_flag: i32 = if state.high_quality { 1 } else { 0 };
    let mut u: Vec<Uniform> = Vec::new();
    u.push(Uniform { name: UniformName::FractalZoom, value: UniformValue::Scalar(state.zoom) });
    u.push(Uniform { name: UniformName::Brightness, value: UniformValue::Scalar(state.brightness) });
    u.push(Uniform { name: UniformName::Gamma, value: UniformValue::Scalar(state.gamma) });
    u.push(Uniform { name: UniformName::Contrast, value: UniformValue::Scalar(state.contrast) });
    u.push(Uniform { name: UniformName::ColorR, value: UniformValue::Scalar(state.r) });
    u.push(Uniform { name: UniformName::ColorG, value: UniformValue::Scalar(state.g) });
    u.push(Uniform { name: UniformName::ColorB, value: UniformValue::Scalar(state.b) });
    u.push(Uniform { name: UniformName::HighQuality, value: UniformValue::Flag(quality_flag) });
    u.push(Uniform {
        name: UniformName::FractalKind,
        value: UniformValue::Flag(fractal_type_code(state.fractal_type)),
    });
    u.push(Uniform {
        name: UniformName::FractalPosition,
        value: UniformValue::Pair(position.x, position.y),
    });
    u.push(Uniform {
        name: UniformName::CJulia,
        value: UniformValue::Pair(state.c_julia_x, state.c_julia_y),
    });
    Some(u)
}

/// The full uniform set for one frame: recomputed every frame with no
/// caching, so that any state edit is visible on the very next draw.
pub fn uniforms(state: &ViewState, viewport: &ScreenRect) -> (u: Vec<Uniform>)
    requires
        state.wf(),
        viewport.wf(),
        fractal_center_in_range(state@, viewport@),
    ensures
        uniform_set_matches(u@, state@, viewport@),
{
    match try_uniforms(state, viewport) {
        Some(u) => u,
        None => unreached(),
    }
}

} // verus!
