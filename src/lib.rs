//! View-transform and redraw-coordination core of an interactive 2D viewer.
//!
//! `Transform` is an affine transform with exact rational coefficients in
//! homogeneous form; its operations are exact and report overflow. The
//! `ViewController` keeps the live view transform bounded: coefficients in
//! millionths of a pixel, a uniform scale in a fixed range and a bounded
//! translation. Pans are exact; each zoom rounds to the nearest millionth, so
//! the point under the cursor stays put up to that rounding.
use vstd::prelude::*;

pub mod transform;
pub mod view;
pub mod laws;
pub mod surface;
pub mod render_loop;
pub mod label;
pub mod config;
