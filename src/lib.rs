//! Procedural composition of a ray-traced scene of spheres.
//!
//! All real quantities are exact fixed-point integers (see [`geometry::UNIT`]),
//! so that every surface emitted is a checked function of the uniform draws.
use vstd::prelude::*;

pub mod geometry;
pub mod laws;
pub mod material;
pub mod random;
pub mod scene;
pub mod surface;

verus! {

} // verus!
