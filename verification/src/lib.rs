//! View-state and coordinate-transform engine for an interactive 2-D fractal
//! viewer. The library keeps the authoritative view state (zoom, center,
//! color and shape parameters), turns pointer, scroll and drag input into
//! deterministic updates of that state under a fixed gesture policy, and
//! states the exact contract between the state and a shader-based renderer:
//! which uniforms it is owed, with which values, and how screen-space
//! geometry maps to fractal-space geometry.
//!
//! All coordinates and scale factors are exact rational numbers ([`rat::Rat`]),
//! so every transform is an exact arithmetic statement that the verifier
//! checks; the rendering front end converts to its own scalar type at the
//! boundary.

pub mod rat;
pub mod state;
pub mod mapper;
pub mod control;
pub mod binding;
