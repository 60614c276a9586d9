//! Properties that hold of every composed scene, whatever the draws.
use vstd::prelude::*;
use vstd::arithmetic::div_mod::lemma_div_by_multiple;

use crate::geometry::{Point3, UNIT};
use crate::random::draw_of;
use crate::scene::{
    candidate, clear_cells, features_spec, clear_of_reference, composed, filler_at, fillers,
    within_candidate_limit, CELLS, DRAWS_PER_CELL, FILLER_RADIUS, HALF, HALF_STEP,
};
use crate::surface::Surface;

verus! {

/// What every filler satisfies: a valid surface of filler radius whose start
/// is clear of the reference point; with motion, diffuse fillers rise over
/// [0, 1] by an even, bounded amount, and all others are at rest.
pub open spec fn filler_shape(s: Surface, motion: bool) -> bool {
    &&& s.wf()
    &&& clear_of_reference(s.start_center())
    &&& within_candidate_limit(s.start_center())
    &&& if motion && s.material_spec() is Diffuse {
        &&& s is MovingSphere
        &&& s->time0 == 0
        &&& s->time1 == UNIT
        &&& s->center1.x == s->center0.x
        &&& s->center1.z == s->center0.z
        &&& (s->center1.y - s->center0.y) % 2 == 0
        &&& 0 <= s->center1.y - s->center0.y < HALF
    } else {
        s is Sphere
    }
}

proof fn lemma_candidate_bounds(d: Seq<u32>, pos: int, k: int)
    requires
        0 <= k < CELLS,
    ensures
        within_candidate_limit(candidate(d, pos, k)),
        candidate(d, pos, k).y == FILLER_RADIUS,
{
    let jx = draw_of(d[pos + 1]);
    let jz = draw_of(d[pos + 2]);
    assert(0 <= jx < 16777216);
    assert(0 <= jz < 16777216);
    assert(-5 <= k / 10 - 5 <= 4);
    assert(-5 <= k % 10 - 5 <= 4);
}

proof fn lemma_filler_at(d: Seq<u32>, pos: int, k: int, motion: bool)
    requires
        0 <= k < CELLS,
    ensures
        filler_at(d, pos, k, motion).0 is Some <==> clear_of_reference(candidate(d, pos, k)),
        filler_at(d, pos, k, motion).0 is Some ==> filler_shape(
            filler_at(d, pos, k, motion).0->0,
            motion,
        ),
        pos < filler_at(d, pos, k, motion).1 <= pos + DRAWS_PER_CELL,
{
    lemma_candidate_bounds(d, pos, k);
    let lift = draw_of(d[pos + 3]);
    assert(0 <= lift < 16777216);
    assert((HALF_STEP * lift) % 2 == 0);
}

proof fn lemma_fillers(d: Seq<u32>, motion: bool, k: nat)
    requires
        k <= CELLS,
    ensures
        fillers(d, motion, k).0.len() == clear_cells(d, motion, k),
        forall|i: int|
            0 <= i < fillers(d, motion, k).0.len() ==> filler_shape(
                #[trigger] fillers(d, motion, k).0[i],
                motion,
            ),
        0 <= fillers(d, motion, k).1 <= DRAWS_PER_CELL * k,
    decreases k,
{
    if k > 0 {
        let prev = fillers(d, motion, (k - 1) as nat);
        lemma_fillers(d, motion, (k - 1) as nat);
        lemma_filler_at(d, prev.1, k - 1, motion);
        let cur = fillers(d, motion, k).0;
        assert forall|i: int| 0 <= i < cur.len() implies filler_shape(#[trigger] cur[i], motion) by {
            if i < prev.0.len() {
                assert(cur[i] == prev.0[i]);
            }
        }
    }
}

/// The scene holds the ground, the three feature spheres, and one filler for
/// each grid cell whose candidate center lies at or beyond the exclusion
/// radius from the reference point.
pub proof fn lemma_surface_count(d: Seq<u32>, motion: bool)
    ensures
        composed(d, motion).len() == 4 + clear_cells(d, motion, CELLS as nat),
{
    lemma_fillers(d, motion, CELLS as nat);
}

/// No filler of a scene starts closer than the exclusion radius to the
/// reference point.
pub proof fn lemma_fillers_clear(d: Seq<u32>, motion: bool)
    ensures
        forall|i: int|
            1 <= i < composed(d, motion).len() - 3 ==> clear_of_reference(
                (#[trigger] composed(d, motion)[i]).start_center(),
            ),
{
    lemma_fillers(d, motion, CELLS as nat);
    let f = fillers(d, motion, CELLS as nat).0;
    assert forall|i: int| 1 <= i < composed(d, motion).len() - 3 implies clear_of_reference(
        (#[trigger] composed(d, motion)[i]).start_center(),
    ) by {
        assert(composed(d, motion)[i] == f[i - 1]);
        assert(filler_shape(f[i - 1], motion));
    }
}

/// The coordinates of a point, as integers.
pub open spec fn coords(p: Point3) -> (int, int, int) {
    (p.x as int, p.y as int, p.z as int)
}

proof fn lemma_rise(a: int, b: int)
    requires
        0 <= b - a,
        (b - a) % 2 == 0,
    ensures
        crate::surface::lerp(a, b, 0, UNIT as int, 0) == a,
        crate::surface::lerp(a, b, 0, UNIT as int, UNIT as int) == b,
        2 * crate::surface::lerp(a, b, 0, UNIT as int, HALF as int) == a + b,
{
    let h = (b - a) / 2;
    assert(b - a == 2 * h);
    lemma_div_by_multiple(b - a, UNIT as int);
    assert((b - a) * (HALF - 0) == h * UNIT);
    lemma_div_by_multiple(h, UNIT as int);
}

/// With motion, every diffuse filler is a moving sphere over the window
/// [0, 1] whose center is its start center at time 0, its end center at
/// time 1, and the mean of the two at time 1/2.
pub proof fn lemma_diffuse_fillers_move(d: Seq<u32>)
    ensures
        forall|i: int|
            1 <= i < composed(d, true).len() - 3 && (#[trigger] composed(d, true)[i]).material_spec() is Diffuse
                ==> {
                let s = composed(d, true)[i];
                &&& s is MovingSphere
                &&& s->time0 == 0
                &&& s->time1 == UNIT
                &&& s.position_at(0) == coords(s->center0)
                &&& s.position_at(UNIT as int) == coords(s->center1)
                &&& 2 * s.position_at(HALF as int).0 == s->center0.x + s->center1.x
                &&& 2 * s.position_at(HALF as int).1 == s->center0.y + s->center1.y
                &&& 2 * s.position_at(HALF as int).2 == s->center0.z + s->center1.z
            },
{
    lemma_fillers(d, true, CELLS as nat);
    let f = fillers(d, true, CELLS as nat).0;
    assert forall|i: int|
        1 <= i < composed(d, true).len() - 3 && (#[trigger] composed(d, true)[i]).material_spec() is Diffuse
            implies {
            let s = composed(d, true)[i];
            &&& s is MovingSphere
            &&& s->time0 == 0
            &&& s->time1 == UNIT
            &&& s.position_at(0) == coords(s->center0)
            &&& s.position_at(UNIT as int) == coords(s->center1)
            &&& 2 * s.position_at(HALF as int).0 == s->center0.x + s->center1.x
            &&& 2 * s.position_at(HALF as int).1 == s->center0.y + s->center1.y
            &&& 2 * s.position_at(HALF as int).2 == s->center0.z + s->center1.z
        } by {
        let s = composed(d, true)[i];
        assert(s == f[i - 1]);
        assert(filler_shape(f[i - 1], true));
        lemma_rise(s->center0.x as int, s->center1.x as int);
        lemma_rise(s->center0.y as int, s->center1.y as int);
        lemma_rise(s->center0.z as int, s->center1.z as int);
    }
}

/// With motion, every filler that is not diffuse is a sphere at rest: its
/// center is the same at every time.
pub proof fn lemma_other_fillers_rest(d: Seq<u32>)
    ensures
        forall|i: int|
            1 <= i < composed(d, true).len() - 3 && !((#[trigger] composed(d, true)[i]).material_spec() is Diffuse)
                ==> {
                let s = composed(d, true)[i];
                &&& s is Sphere
                &&& forall|t: int| #[trigger] s.position_at(t) == coords(s->center)
            },
{
    lemma_fillers(d, true, CELLS as nat);
    let f = fillers(d, true, CELLS as nat).0;
    assert forall|i: int|
        1 <= i < composed(d, true).len() - 3 && !((#[trigger] composed(d, true)[i]).material_spec() is Diffuse)
            implies composed(d, true)[i] is Sphere by {
        assert(composed(d, true)[i] == f[i - 1]);
        assert(filler_shape(f[i - 1], true));
    }
}

/// Every surface of a scene is valid: its radius is positive, and a moving
/// sphere starts strictly before it ends.
pub proof fn lemma_surfaces_wf(d: Seq<u32>, motion: bool)
    ensures
        forall|i: int| 0 <= i < composed(d, motion).len() ==> (#[trigger] composed(d, motion)[i]).wf(),
{
    lemma_fillers(d, motion, CELLS as nat);
    let f = fillers(d, motion, CELLS as nat).0;
    let s = composed(d, motion);
    assert forall|i: int| 0 <= i < s.len() implies (#[trigger] s[i]).wf() by {
        if 1 <= i < s.len() - 3 {
            assert(s[i] == f[i - 1]);
            assert(filler_shape(f[i - 1], motion));
        } else if i >= s.len() - 3 {
            assert(s[i] == features_spec()[i - (s.len() - 3)]);
        }
    }
}

/// Without motion, every surface of a scene is a sphere at rest.
pub proof fn lemma_still_scene(d: Seq<u32>)
    ensures
        forall|i: int| 0 <= i < composed(d, false).len() ==> (#[trigger] composed(d, false)[i]) is Sphere,
{
    lemma_fillers(d, false, CELLS as nat);
    let f = fillers(d, false, CELLS as nat).0;
    let s = composed(d, false);
    assert forall|i: int| 0 <= i < s.len() implies (#[trigger] s[i]) is Sphere by {
        if 1 <= i < s.len() - 3 {
            assert(s[i] == f[i - 1]);
            assert(filler_shape(f[i - 1], false));
        } else if i >= s.len() - 3 {
            assert(s[i] == features_spec()[i - (s.len() - 3)]);
        }
    }
}

} // verus!
