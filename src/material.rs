//! Materials and the weighted choice among them.
use vstd::prelude::*;

verus! {

/// A reflectance color, each component a fraction in units of `1 / UNIT`.
#[derive(Clone, Copy, Debug, PartialEq, Eq, Structural)]
pub struct Color {
    pub r: i64,
    pub g: i64,
    pub b: i64,
}

/// How a surface scatters light. A material is an immutable value: surfaces
/// that share one hold equal copies of it.
#[derive(Clone, Copy, Debug, PartialEq, Eq, Structural)]
pub enum Material {
    /// Matte scattering with the given albedo.
    Diffuse { albedo: Color },
    /// Mirror-like reflection, blurred by `fuzz` (a fraction in units of `1 / UNIT`).
    Reflective { albedo: Color, fuzz: i64 },
    /// Glass-like refraction with the given index (in units of `1 / UNIT`).
    Refractive { index: i64 },
}

/// The three classes of material a filler surface can take.
#[derive(Clone, Copy, Debug, PartialEq, Eq, Structural)]
pub enum MaterialKind {
    Diffuse,
    Reflective,
    Refractive,
}

/// The draw that stands for a selector of 0.8: the nearest multiple of `2^-24`.
/// Selectors below it choose a diffuse material.
pub const DIFFUSE_LIMIT: u32 = 13421773;

/// The draw that stands for a selector of 0.95: the nearest multiple of `2^-24`.
/// Selectors from `DIFFUSE_LIMIT` up to below it choose a reflective material;
/// selectors from it upward choose a refractive one.
pub const REFLECTIVE_LIMIT: u32 = 15938355;

/// The class of material that a selector draw chooses.
pub open spec fn kind_of(selector: int) -> MaterialKind {
    if selector < DIFFUSE_LIMIT {
        MaterialKind::Diffuse
    } else if selector < REFLECTIVE_LIMIT {
        MaterialKind::Reflective
    } else {
        MaterialKind::Refractive
    }
}

/// Chooses the class of material for a selector draw: diffuse below 0.8,
/// reflective from 0.8 up to below 0.95, refractive from 0.95 upward.
pub fn classify(selector: u32) -> (r: MaterialKind)
    ensures
        r == kind_of(selector as int),
        (r == MaterialKind::Diffuse) <==> selector < DIFFUSE_LIMIT,
        (r == MaterialKind::Refractive) <==> selector >= REFLECTIVE_LIMIT,
{
    if selector < DIFFUSE_LIMIT {
        MaterialKind::Diffuse
    } else if selector < REFLECTIVE_LIMIT {
        MaterialKind::Reflective
    } else {
        MaterialKind::Refractive
    }
}

} // verus!
