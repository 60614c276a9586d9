//! Traceable surfaces: static and moving spheres.
use vstd::prelude::*;

use crate::geometry::Point3;
use crate::material::Material;

verus! {

/// Bound on the coordinates and times of a moving sphere, so that its
/// interpolation stays within 128-bit intermediates.
pub const MOTION_LIMIT: i64 = 2305843009213693952;

/// One traceable primitive. Lengths and times are in units of `1 / UNIT`.
#[derive(Clone, Copy, Debug, PartialEq, Eq, Structural)]
pub enum Surface {
    /// A sphere at rest.
    Sphere { center: Point3, radius: i64, material: Material },
    /// A sphere whose center moves linearly from `center0` at `time0` to
    /// `center1` at `time1`.
    MovingSphere {
        center0: Point3,
        center1: Point3,
        time0: i64,
        time1: i64,
        radius: i64,
        material: Material,
    },
}

/// `p / d` rounded toward zero, for `d > 0`.
pub open spec fn div_toward_zero(p: int, d: int) -> int {
    if p >= 0 {
        p / d
    } else {
        -((-p) / d)
    }
}

/// The value at time `t` of the line through `a` at `t0` and `b` at `t1`,
/// rounded toward `a` to the fixed-point grid.
pub open spec fn lerp(a: int, b: int, t0: int, t1: int, t: int) -> int {
    a + div_toward_zero((b - a) * (t - t0), t1 - t0)
}

/// A coordinate or time lies within `MOTION_LIMIT` of zero.
pub open spec fn within_motion_limit(v: int) -> bool {
    -MOTION_LIMIT <= v <= MOTION_LIMIT
}

/// A value is representable as an `i64`.
pub open spec fn fits_i64(v: int) -> bool {
    i64::MIN <= v <= i64::MAX
}

impl Surface {
    /// Every surface has a positive radius; a moving sphere starts strictly
    /// before it ends, with its centers and times within `MOTION_LIMIT`.
    pub open spec fn wf(self) -> bool {
        match self {
            Surface::Sphere { radius, .. } => radius > 0,
            Surface::MovingSphere { center0, center1, time0, time1, radius, .. } => {
                &&& radius > 0
                &&& time0 < time1
                &&& within_motion_limit(time0 as int)
                &&& within_motion_limit(time1 as int)
                &&& within_motion_limit(center0.x as int)
                &&& within_motion_limit(center0.y as int)
                &&& within_motion_limit(center0.z as int)
                &&& within_motion_limit(center1.x as int)
                &&& within_motion_limit(center1.y as int)
                &&& within_motion_limit(center1.z as int)
            },
        }
    }

    /// Coordinates of the center at time `t`; a moving sphere extrapolates
    /// linearly outside its time window.
    pub open spec fn position_at(self, t: int) -> (int, int, int) {
        match self {
            Surface::Sphere { center, .. } => (center.x as int, center.y as int, center.z as int),
            Surface::MovingSphere { center0, center1, time0, time1, .. } => (
                lerp(center0.x as int, center1.x as int, time0 as int, time1 as int, t),
                lerp(center0.y as int, center1.y as int, time0 as int, time1 as int, t),
                lerp(center0.z as int, center1.z as int, time0 as int, time1 as int, t),
            ),
        }
    }

    /// The center of the surface at its start.
    pub open spec fn start_center(self) -> Point3 {
        match self {
            Surface::Sphere { center, .. } => center,
            Surface::MovingSphere { center0, .. } => center0,
        }
    }

    /// The material of the surface.
    pub open spec fn material_spec(self) -> Material {
        match self {
            Surface::Sphere { material, .. } => material,
            Surface::MovingSphere { material, .. } => material,
        }
    }

    /// The center at time `t`, for any `t` whose position is representable.
    pub fn center_at(&self, t: i64) -> (r: Point3)
        requires
            self.wf(),
            fits_i64(self.position_at(t as int).0),
            fits_i64(self.position_at(t as int).1),
            fits_i64(self.position_at(t as int).2),
        ensures
            r.x == self.position_at(t as int).0,
            r.y == self.position_at(t as int).1,
            r.z == self.position_at(t as int).2,
    {
        match self {
            Surface::Sphere { center, .. } => *center,
            Surface::MovingSphere { center0, center1, time0, time1, .. } => {
                let den: i128 = *time1 as i128 - *time0 as i128;
                let dt: i128 = t as i128 - *time0 as i128;
                Point3 {
                    x: lerp_coord(center0.x, center1.x, dt, den, Ghost(*time0 as int), Ghost(t as int)),
                    y: lerp_coord(center0.y, center1.y, dt, den, Ghost(*time0 as int), Ghost(t as int)),
                    z: lerp_coord(center0.z, center1.z, dt, den, Ghost(*time0 as int), Ghost(t as int)),
                }
            },
        }
    }

    /// The material of the surface.
    pub fn material(&self) -> (r: Material)
        ensures
            r == self.material_spec(),
    {
        match self {
            Surface::Sphere { material, .. } => *material,
            Surface::MovingSphere { material, .. } => *material,
        }
    }
}

/// One coordinate of a moving center: `a` moved toward `b` by the fraction
/// `dt / den` of the way, rounded toward `a`.
fn lerp_coord(a: i64, b: i64, dt: i128, den: i128, Ghost(t0): Ghost<int>, Ghost(t): Ghost<int>) -> (r: i64)
    requires
        within_motion_limit(a as int),
        within_motion_limit(b as int),
        within_motion_limit(t0),
        fits_i64(t),
        dt == t - t0,
        0 < den <= 2 * MOTION_LIMIT,
        fits_i64(a + div_toward_zero((b - a) * dt, den as int)),
    ensures
        r == a + div_toward_zero((b - a) * dt, den as int),
{
    let diff: i128 = b as i128 - a as i128;
    assert(-5 * MOTION_LIMIT <= dt <= 5 * MOTION_LIMIT);
    assert(-2 * MOTION_LIMIT <= diff <= 2 * MOTION_LIMIT);
    assert(-10 * MOTION_LIMIT * MOTION_LIMIT <= diff * dt <= 10 * MOTION_LIMIT * MOTION_LIMIT) by (nonlinear_arith)
        requires
            -5 * MOTION_LIMIT <= dt <= 5 * MOTION_LIMIT,
            -2 * MOTION_LIMIT <= diff <= 2 * MOTION_LIMIT,
    ;
    let p: i128 = diff * dt;
    let q: i128 = if p >= 0 {
        ((p as u128) / (den as u128)) as i128
    } else {
        -((((-p) as u128) / (den as u128)) as i128)
    };
    (a as i128 + q) as i64
}

} // verus!
