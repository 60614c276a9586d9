//! Composition of the scene: a ground sphere, a jittered grid of small filler
//! spheres with randomly chosen materials, and three large feature spheres.
use vstd::prelude::*;

use crate::geometry::{distance_squared, Point3, UNIT};
use crate::material::{classify, kind_of, Color, Material, MaterialKind};
use crate::random::{draw_of, draw_words, unit_draw, DRAW_RANGE};
use crate::surface::Surface;

verus! {

/// Number of cells of the filler grid (10 by 10).
pub const CELLS: usize = 100;

/// Number of cells along each side of the grid.
pub const GRID_SIDE: usize = 10;

/// Most draws that one grid cell consumes.
pub const DRAWS_PER_CELL: usize = 10;

/// Draws that one composition may consume: `CELLS * DRAWS_PER_CELL`.
pub const DRAW_BUDGET: usize = 1000;

/// Value of one step of a uniform draw: `UNIT / 2^24`.
pub const DRAW_STEP: i64 = 167772160;

/// Jitter of a filler center per draw step: `0.9 * DRAW_STEP`.
pub const JITTER_STEP: i64 = 150994944;

/// Half of a draw step: scales the draws of upward motion, metallic
/// brightness and fuzziness (each `0.5 * draw`).
pub const HALF_STEP: i64 = 83886080;

/// One half, in fixed point.
pub const HALF: i64 = 1407374883553280;

/// Spacing of the grid: 2.
pub const GRID_SPACING: i64 = 5629499534213120;

/// Radius of a filler sphere, and the height of its center: 0.2.
pub const FILLER_RADIUS: i64 = 562949953421312;

/// Filler candidates closer than this (0.9) to the reference point are dropped.
pub const EXCLUSION_RADIUS: i64 = 2533274790395904;

/// Height of the ground sphere's center: -1000.
pub const GROUND_Y: i64 = -2814749767106560000;

/// Radius of the ground sphere: 1000.
pub const GROUND_RADIUS: i64 = 2814749767106560000;

/// Distance along x of the side feature spheres from the origin: 4.
pub const FEATURE_X: i64 = 11258999068426240;

/// Refractive index of glass: 1.5.
pub const GLASS_INDEX: i64 = 4222124650659840;

/// An ordered collection of surfaces, handed to a renderer as a whole.
#[derive(Clone, Debug, PartialEq, Eq)]
pub struct Scene {
    pub surfaces: Vec<Surface>,
}

impl View for Scene {
    type V = Seq<Surface>;

    open spec fn view(&self) -> Seq<Surface> {
        self.surfaces@
    }
}

// ---------------------------------------------------------------------------
// The model of a composition, over the sequence of drawn words.

/// The uniform draw at position `i` of the words.
pub open spec fn draw_at(d: Seq<u32>, i: int) -> int {
    draw_of(d[i])
}

/// The point that filler spheres must keep clear of: the base of the
/// reflective feature sphere, at (4, 0.2, 0).
pub open spec fn reference_point() -> Point3 {
    Point3 { x: FEATURE_X, y: FILLER_RADIUS, z: 0 }
}

/// A point lies at or beyond the exclusion radius from the reference point.
pub open spec fn clear_of_reference(p: Point3) -> bool {
    distance_squared(p, reference_point()) >= EXCLUSION_RADIUS * EXCLUSION_RADIUS
}

/// Grid offset along x of cell `k` (cells run x-major, each axis over -5..5).
pub open spec fn cell_x(k: int) -> int {
    k / GRID_SIDE as int - 5
}

/// Grid offset along z of cell `k`.
pub open spec fn cell_z(k: int) -> int {
    k % GRID_SIDE as int - 5
}

/// The candidate center of cell `k` when its draws start at `pos`: the draw
/// at `pos` selects the material, the next two jitter x and z.
pub open spec fn candidate(d: Seq<u32>, pos: int, k: int) -> Point3 {
    Point3 {
        x: (GRID_SPACING * cell_x(k) + JITTER_STEP * draw_at(d, pos + 1)) as i64,
        y: FILLER_RADIUS,
        z: (GRID_SPACING * cell_z(k) + JITTER_STEP * draw_at(d, pos + 2)) as i64,
    }
}

/// A dark albedo from six draws at `i`: each component the product of two draws.
pub open spec fn dark_albedo(d: Seq<u32>, i: int) -> Color {
    Color {
        r: (10 * draw_at(d, i) * draw_at(d, i + 1)) as i64,
        g: (10 * draw_at(d, i + 2) * draw_at(d, i + 3)) as i64,
        b: (10 * draw_at(d, i + 4) * draw_at(d, i + 5)) as i64,
    }
}

/// A bright albedo from three draws at `i`: each component `0.5 * (1 + draw)`.
pub open spec fn bright_albedo(d: Seq<u32>, i: int) -> Color {
    Color {
        r: (HALF + HALF_STEP * draw_at(d, i)) as i64,
        g: (HALF + HALF_STEP * draw_at(d, i + 1)) as i64,
        b: (HALF + HALF_STEP * draw_at(d, i + 2)) as i64,
    }
}

/// What cell `k` emits when its draws start at `pos`, and where the next
/// cell's draws start.
pub open spec fn filler_at(d: Seq<u32>, pos: int, k: int, motion: bool) -> (Option<Surface>, int) {
    let c = candidate(d, pos, k);
    if !clear_of_reference(c) {
        (None, pos + 3)
    } else {
        match kind_of(draw_at(d, pos)) {
            MaterialKind::Diffuse => if motion {
                (
                    Some(
                        Surface::MovingSphere {
                            center0: c,
                            center1: Point3 { x: c.x, y: (c.y + HALF_STEP * draw_at(d, pos + 3)) as i64, z: c.z },
                            time0: 0,
                            time1: UNIT,
                            radius: FILLER_RADIUS,
                            material: Material::Diffuse { albedo: dark_albedo(d, pos + 4) },
                        },
                    ),
                    pos + 10,
                )
            } else {
                (
                    Some(
                        Surface::Sphere {
                            center: c,
                            radius: FILLER_RADIUS,
                            material: Material::Diffuse { albedo: dark_albedo(d, pos + 3) },
                        },
                    ),
                    pos + 9,
                )
            },
            MaterialKind::Reflective => (
                Some(
                    Surface::Sphere {
                        center: c,
                        radius: FILLER_RADIUS,
                        material: Material::Reflective {
                            albedo: bright_albedo(d, pos + 3),
                            fuzz: (HALF_STEP * draw_at(d, pos + 6)) as i64,
                        },
                    },
                ),
                pos + 7,
            ),
            MaterialKind::Refractive => (
                Some(
                    Surface::Sphere {
                        center: c,
                        radius: FILLER_RADIUS,
                        material: Material::Refractive { index: GLASS_INDEX },
                    },
                ),
                pos + 3,
            ),
        }
    }
}

/// The surfaces that an optional emission adds: none or one.
pub open spec fn option_seq(o: Option<Surface>) -> Seq<Surface> {
    match o {
        Some(s) => seq![s],
        None => seq![],
    }
}

/// The fillers of the first `k` cells, and where the draws of cell `k` start.
pub open spec fn fillers(d: Seq<u32>, motion: bool, k: nat) -> (Seq<Surface>, int)
    decreases k,
{
    if k == 0 {
        (seq![], 0)
    } else {
        let prev = fillers(d, motion, (k - 1) as nat);
        let step = filler_at(d, prev.1, k - 1, motion);
        (prev.0 + option_seq(step.0), step.1)
    }
}

/// The candidate center of cell `k` in a composition from `d`.
pub open spec fn cell_candidate(d: Seq<u32>, motion: bool, k: nat) -> Point3 {
    candidate(d, fillers(d, motion, k).1, k as int)
}

/// How many of the first `k` cells have a candidate clear of the reference point.
pub open spec fn clear_cells(d: Seq<u32>, motion: bool, k: nat) -> nat
    decreases k,
{
    if k == 0 {
        0
    } else {
        clear_cells(d, motion, (k - 1) as nat) + if clear_of_reference(
            cell_candidate(d, motion, (k - 1) as nat),
        ) {
            1nat
        } else {
            0nat
        }
    }
}

/// The ground: a huge diffuse sphere of neutral albedo far below the origin.
pub open spec fn ground_spec() -> Surface {
    Surface::Sphere {
        center: Point3 { x: 0, y: GROUND_Y, z: 0 },
        radius: GROUND_RADIUS,
        material: Material::Diffuse { albedo: Color { r: HALF, g: HALF, b: HALF } },
    }
}

/// The three feature spheres of unit radius: glass, warm diffuse, warm mirror.
pub open spec fn features_spec() -> Seq<Surface> {
    seq![
        Surface::Sphere {
            center: Point3 { x: 0, y: UNIT, z: 0 },
            radius: UNIT,
            material: Material::Refractive { index: GLASS_INDEX },
        },
        Surface::Sphere {
            center: Point3 { x: (-FEATURE_X) as i64, y: UNIT, z: 0 },
            radius: UNIT,
            material: Material::Diffuse {
                albedo: Color { r: 1125899906842624, g: 562949953421312, b: 281474976710656 },
            },
        },
        Surface::Sphere {
            center: Point3 { x: FEATURE_X, y: UNIT, z: 0 },
            radius: UNIT,
            material: Material::Reflective {
                albedo: Color { r: 1970324836974592, g: 1688849860263936, b: 1407374883553280 },
                fuzz: 0,
            },
        },
    ]
}

/// The scene composed from the words `d`.
pub open spec fn composed(d: Seq<u32>, motion: bool) -> Seq<Surface> {
    seq![ground_spec()] + fillers(d, motion, CELLS as nat).0 + features_spec()
}

// ---------------------------------------------------------------------------
// Composition.

/// Bound on the coordinates of a filler candidate, so that squared distances
/// stay within 128 bits.
pub const CANDIDATE_LIMIT: i64 = 1152921504606846976;

/// Every coordinate of `p` lies within `CANDIDATE_LIMIT` of zero.
pub open spec fn within_candidate_limit(p: Point3) -> bool {
    &&& -CANDIDATE_LIMIT <= p.x <= CANDIDATE_LIMIT
    &&& -CANDIDATE_LIMIT <= p.y <= CANDIDATE_LIMIT
    &&& -CANDIDATE_LIMIT <= p.z <= CANDIDATE_LIMIT
}

/// The candidate center of cell `k` whose draws start at `pos`.
fn candidate_center(d: &Vec<u32>, pos: usize, k: usize) -> (r: Point3)
    requires
        pos + 3 <= d@.len(),
        pos <= DRAW_BUDGET,
        k < CELLS,
    ensures
        r == candidate(d@, pos as int, k as int),
        within_candidate_limit(r),
{
    let jx: u32 = unit_draw(d[pos + 1]);
    let jz: u32 = unit_draw(d[pos + 2]);
    let gx: i64 = (k / GRID_SIDE) as i64 - 5;
    let gz: i64 = (k % GRID_SIDE) as i64 - 5;
    Point3 {
        x: GRID_SPACING * gx + JITTER_STEP * (jx as i64),
        y: FILLER_RADIUS,
        z: GRID_SPACING * gz + JITTER_STEP * (jz as i64),
    }
}

/// Whether `p` lies at or beyond the exclusion radius from the reference point.
pub fn is_clear_of_reference(p: Point3) -> (r: bool)
    requires
        within_candidate_limit(p),
    ensures
        r == clear_of_reference(p),
{
    let dx: i128 = p.x as i128 - FEATURE_X as i128;
    let dy: i128 = p.y as i128 - FILLER_RADIUS as i128;
    let dz: i128 = p.z as i128 - 0i128;
    let lim: i128 = 2 * CANDIDATE_LIMIT as i128;
    assert(lim * lim == 5316911983139663491615228241121378304) by (nonlinear_arith)
        requires
            lim == 2305843009213693952,
    ;
    assert(dx * dx <= lim * lim) by (nonlinear_arith)
        requires
            -lim <= dx <= lim,
    ;
    assert(dy * dy <= lim * lim) by (nonlinear_arith)
        requires
            -lim <= dy <= lim,
    ;
    assert(dz * dz <= lim * lim) by (nonlinear_arith)
        requires
            -lim <= dz <= lim,
    ;
    assert(0 <= dx * dx && 0 <= dy * dy && 0 <= dz * dz) by (nonlinear_arith);
    let sum: i128 = dx * dx + dy * dy + dz * dz;
    let radius: i128 = EXCLUSION_RADIUS as i128;
    assert(radius * radius == 6417481163655411345077059977216) by (nonlinear_arith)
        requires
            radius == 2533274790395904,
    ;
    sum >= radius * radius
}

/// `10 * a * b`: the fixed-point product of two draws.
fn draw_product(a: u32, b: u32) -> (r: i64)
    requires
        a < DRAW_RANGE,
        b < DRAW_RANGE,
    ensures
        r == 10 * a * b,
{
    assert(a * b <= 16777216 * 16777216) by (nonlinear_arith)
        requires
            a < 16777216,
            b < 16777216,
    ;
    assert(10 * (a * b) == 10 * a * b) by (nonlinear_arith);
    10 * (a as i64 * b as i64)
}

/// The dark albedo of six draws at `i`.
fn dark_albedo_at(d: &Vec<u32>, i: usize) -> (r: Color)
    requires
        i + 6 <= d@.len(),
        i <= DRAW_BUDGET + DRAWS_PER_CELL,
    ensures
        r == dark_albedo(d@, i as int),
{
    let r: i64 = draw_product(unit_draw(d[i]), unit_draw(d[i + 1]));
    let g: i64 = draw_product(unit_draw(d[i + 2]), unit_draw(d[i + 3]));
    let b: i64 = draw_product(unit_draw(d[i + 4]), unit_draw(d[i + 5]));
    Color { r, g, b }
}

/// `0.5 * draw`, in fixed point.
fn half_draw(word: u32) -> (r: i64)
    ensures
        r == HALF_STEP * draw_of(word),
        0 <= r < HALF,
{
    HALF_STEP * (unit_draw(word) as i64)
}

/// The bright albedo of three draws at `i`.
fn bright_albedo_at(d: &Vec<u32>, i: usize) -> (r: Color)
    requires
        i + 3 <= d@.len(),
        i <= DRAW_BUDGET + DRAWS_PER_CELL,
    ensures
        r == bright_albedo(d@, i as int),
{
    Color {
        r: HALF + half_draw(d[i]),
        g: HALF + half_draw(d[i + 1]),
        b: HALF + half_draw(d[i + 2]),
    }
}

/// What cell `k` emits when its draws start at `pos`, and where the next
/// cell's draws start.
fn compose_cell(d: &Vec<u32>, pos: usize, k: usize, motion: bool) -> (r: (Option<Surface>, usize))
    requires
        pos + DRAWS_PER_CELL <= d@.len(),
        pos <= DRAW_BUDGET,
        k < CELLS,
    ensures
        r.0 == filler_at(d@, pos as int, k as int, motion).0,
        r.1 == filler_at(d@, pos as int, k as int, motion).1,
        pos < r.1 <= pos + DRAWS_PER_CELL,
{
    let selector: u32 = unit_draw(d[pos]);
    let center: Point3 = candidate_center(d, pos, k);
    if !is_clear_of_reference(center) {
        return (None, pos + 3);
    }
    match classify(selector) {
        MaterialKind::Diffuse => {
            if motion {
                let lift: i64 = half_draw(d[pos + 3]);
                let surface = Surface::MovingSphere {
                    center0: center,
                    center1: Point3 { x: center.x, y: center.y + lift, z: center.z },
                    time0: 0,
                    time1: UNIT,
                    radius: FILLER_RADIUS,
                    material: Material::Diffuse { albedo: dark_albedo_at(d, pos + 4) },
                };
                (Some(surface), pos + 10)
            } else {
                let surface = Surface::Sphere {
                    center,
                    radius: FILLER_RADIUS,
                    material: Material::Diffuse { albedo: dark_albedo_at(d, pos + 3) },
                };
                (Some(surface), pos + 9)
            }
        },
        MaterialKind::Reflective => {
            let albedo: Color = bright_albedo_at(d, pos + 3);
            let fuzz: i64 = half_draw(d[pos + 6]);
            let surface = Surface::Sphere {
                center,
                radius: FILLER_RADIUS,
                material: Material::Reflective { albedo, fuzz },
            };
            (Some(surface), pos + 7)
        },
        MaterialKind::Refractive => {
            let surface = Surface::Sphere {
                center,
                radius: FILLER_RADIUS,
                material: Material::Refractive { index: GLASS_INDEX },
            };
            (Some(surface), pos + 3)
        },
    }
}

/// The ground sphere.
fn ground() -> (r: Surface)
    ensures
        r == ground_spec(),
{
    Surface::Sphere {
        center: Point3 { x: 0, y: GROUND_Y, z: 0 },
        radius: GROUND_RADIUS,
        material: Material::Diffuse { albedo: Color { r: HALF, g: HALF, b: HALF } },
    }
}

/// Appends the three feature spheres.
fn push_features(surfaces: &mut Vec<Surface>)
    ensures
        final(surfaces)@ == old(surfaces)@ + features_spec(),
{
    surfaces.push(
        Surface::Sphere {
            center: Point3 { x: 0, y: UNIT, z: 0 },
            radius: UNIT,
            material: Material::Refractive { index: GLASS_INDEX },
        },
    );
    surfaces.push(
        Surface::Sphere {
            center: Point3 { x: -FEATURE_X, y: UNIT, z: 0 },
            radius: UNIT,
            material: Material::Diffuse {
                albedo: Color { r: 1125899906842624, g: 562949953421312, b: 281474976710656 },
            },
        },
    );
    surfaces.push(
        Surface::Sphere {
            center: Point3 { x: FEATURE_X, y: UNIT, z: 0 },
            radius: UNIT,
            material: Material::Reflective {
                albedo: Color { r: 1970324836974592, g: 1688849860263936, b: 1407374883553280 },
                fuzz: 0,
            },
        },
    );
    assert(final(surfaces)@ =~= old(surfaces)@ + features_spec());
}

/// Composes a scene from uniform draws, taken in order from `draws`: the
/// ground, then the fillers of the grid cells whose candidate is clear of
/// the reference point, then the three feature spheres. With `motion`,
/// diffuse fillers move upward over the time window [0, 1].
pub fn compose_scene(draws: &Vec<u32>, motion: bool) -> (s: Scene)
    requires
        draws@.len() >= DRAW_BUDGET,
    ensures
        s@ == composed(draws@, motion),
        s@.len() >= 4,
        s@[0] == ground_spec(),
        s@.subrange(s@.len() - 3, s@.len() as int) == features_spec(),
{
    let mut surfaces: Vec<Surface> = Vec::new();
    surfaces.push(ground());
    let mut pos: usize = 0;
    let mut k: usize = 0;
    while k < CELLS
        invariant
            k <= CELLS,
            draws@.len() >= DRAW_BUDGET,
            pos as int == fillers(draws@, motion, k as nat).1,
            pos <= DRAWS_PER_CELL * k,
            surfaces@ == seq![ground_spec()] + fillers(draws@, motion, k as nat).0,
        decreases CELLS - k,
    {
        let (emitted, next) = compose_cell(draws, pos, k, motion);
        match emitted {
            Some(surface) => surfaces.push(surface),
            None => {},
        }
        assert(surfaces@ =~= seq![ground_spec()] + fillers(draws@, motion, (k + 1) as nat).0);
        pos = next;
        k = k + 1;
    }
    push_features(&mut surfaces);
    let s = Scene { surfaces };
    assert(s@ =~= composed(draws@, motion));
    assert(s@.subrange(s@.len() - 3, s@.len() as int) =~= features_spec());
    s
}

/// Composes a scene of spheres at rest, drawing its uniform values from `rng`.
pub fn random_scene(rng: &mut rand::rngs::StdRng) -> (s: Scene)
    ensures
        exists|d: Seq<u32>| d.len() == DRAW_BUDGET && s@ == composed(d, false),
        s@.len() >= 4,
        s@[0] == ground_spec(),
        s@.subrange(s@.len() - 3, s@.len() as int) == features_spec(),
{
    let draws: Vec<u32> = draw_words(rng, DRAW_BUDGET);
    compose_scene(&draws, false)
}

/// Composes a scene whose diffuse fillers move upward over the time window
/// [0, 1], drawing its uniform values from `rng`.
pub fn random_scene_with_motion(rng: &mut rand::rngs::StdRng) -> (s: Scene)
    ensures
        exists|d: Seq<u32>| d.len() == DRAW_BUDGET && s@ == composed(d, true),
        s@.len() >= 4,
        s@[0] == ground_spec(),
        s@.subrange(s@.len() - 3, s@.len() as int) == features_spec(),
{
    let draws: Vec<u32> = draw_words(rng, DRAW_BUDGET);
    compose_scene(&draws, true)
}

} // verus!
