use rand::SeedableRng;
use rand::rngs::StdRng;
use scene_composer::geometry::{Point3, UNIT};
use scene_composer::material::{classify, Color, Material, MaterialKind};
use scene_composer::random::{draw_words, unit_draw};
use scene_composer::scene::{
    compose_scene, is_clear_of_reference, random_scene, random_scene_with_motion, Scene,
    DRAW_BUDGET, EXCLUSION_RADIUS, FEATURE_X, FILLER_RADIUS, GLASS_INDEX, GROUND_RADIUS,
    GROUND_Y, HALF, HALF_STEP, JITTER_STEP, GRID_SPACING,
};
use scene_composer::surface::Surface;

fn ground() -> Surface {
    Surface::Sphere {
        center: Point3 { x: 0, y: GROUND_Y, z: 0 },
        radius: GROUND_RADIUS,
        material: Material::Diffuse { albedo: Color { r: HALF, g: HALF, b: HALF } },
    }
}

fn features() -> Vec<Surface> {
    vec![
        Surface::Sphere {
            center: Point3 { x: 0, y: UNIT, z: 0 },
            radius: UNIT,
            material: Material::Refractive { index: GLASS_INDEX },
        },
        Surface::Sphere {
            center: Point3 { x: -FEATURE_X, y: UNIT, z: 0 },
            radius: UNIT,
            material: Material::Diffuse {
                albedo: Color { r: 4 * UNIT / 10, g: 2 * UNIT / 10, b: UNIT / 10 },
            },
        },
        Surface::Sphere {
            center: Point3 { x: FEATURE_X, y: UNIT, z: 0 },
            radius: UNIT,
            material: Material::Reflective {
                albedo: Color { r: 7 * UNIT / 10, g: 6 * UNIT / 10, b: 5 * UNIT / 10 },
                fuzz: 0,
            },
        },
    ]
}

fn word(draw: u32) -> u32 {
    draw << 8
}

fn check_frame(scene: &Scene) {
    let n = scene.surfaces.len();
    assert!(n >= 4);
    assert_eq!(scene.surfaces[0], ground());
    assert_eq!(scene.surfaces[n - 3..].to_vec(), features());
}

fn start_center(s: &Surface) -> Point3 {
    match s {
        Surface::Sphere { center, .. } => *center,
        Surface::MovingSphere { center0, .. } => *center0,
    }
}

fn candidate_clear(p: Point3) -> bool {
    let dx = p.x as i128 - FEATURE_X as i128;
    let dy = p.y as i128 - FILLER_RADIUS as i128;
    let dz = p.z as i128;
    dx * dx + dy * dy + dz * dz >= EXCLUSION_RADIUS as i128 * EXCLUSION_RADIUS as i128
}

#[test]
fn unit_draw_keeps_top_bits() {
    assert_eq!(unit_draw(0), 0);
    assert_eq!(unit_draw(0xFFFF_FFFF), 16777215);
    assert_eq!(unit_draw(0x0000_01FF), 1);
    assert_eq!(unit_draw(0x8000_0000), 8388608);
}

#[test]
fn selector_thresholds() {
    assert_eq!(classify(0), MaterialKind::Diffuse);
    assert_eq!(classify(13421772), MaterialKind::Diffuse);
    assert_eq!(classify(13421773), MaterialKind::Reflective);
    assert_eq!(classify(15938354), MaterialKind::Reflective);
    assert_eq!(classify(15938355), MaterialKind::Refractive);
    assert_eq!(classify(16777215), MaterialKind::Refractive);
}

#[test]
fn fixed_point_constants() {
    assert_eq!(UNIT, 10 * (1i64 << 48));
    assert_eq!(GRID_SPACING, 2 * UNIT);
    assert_eq!(FILLER_RADIUS, UNIT / 5);
    assert_eq!(EXCLUSION_RADIUS, 9 * UNIT / 10);
    assert_eq!(GLASS_INDEX, 3 * UNIT / 2);
    assert_eq!(GROUND_Y, -1000 * UNIT);
    assert_eq!(JITTER_STEP * (1 << 24), 9 * UNIT / 10);
    assert_eq!(HALF_STEP * (1 << 24), UNIT / 2);
}

#[test]
fn exclusion_boundary() {
    let at = Point3 { x: FEATURE_X + EXCLUSION_RADIUS, y: FILLER_RADIUS, z: 0 };
    assert!(is_clear_of_reference(at));
    let inside = Point3 { x: FEATURE_X + EXCLUSION_RADIUS - 1, y: FILLER_RADIUS, z: 0 };
    assert!(!is_clear_of_reference(inside));
    let on_reference = Point3 { x: FEATURE_X, y: FILLER_RADIUS, z: 0 };
    assert!(!is_clear_of_reference(on_reference));
}

#[test]
fn zero_draws_give_dark_diffuse_grid() {
    let draws = vec![0u32; DRAW_BUDGET];
    let scene = compose_scene(&draws, false);
    // the cell at (2, 0) lands on the reference point and is dropped
    assert_eq!(scene.surfaces.len(), 103);
    check_frame(&scene);
    let dark = Material::Diffuse { albedo: Color { r: 0, g: 0, b: 0 } };
    assert_eq!(
        scene.surfaces[1],
        Surface::Sphere {
            center: Point3 { x: -5 * GRID_SPACING, y: FILLER_RADIUS, z: -5 * GRID_SPACING },
            radius: FILLER_RADIUS,
            material: dark,
        }
    );
    assert_eq!(
        scene.surfaces[99],
        Surface::Sphere {
            center: Point3 { x: 4 * GRID_SPACING, y: FILLER_RADIUS, z: 4 * GRID_SPACING },
            radius: FILLER_RADIUS,
            material: dark,
        }
    );
    for s in &scene.surfaces[1..100] {
        assert_ne!(start_center(s), Point3 { x: FEATURE_X, y: FILLER_RADIUS, z: 0 });
    }
}

#[test]
fn first_cell_formulas() {
    let mut draws = vec![0u32; DRAW_BUDGET];
    // diffuse selector, half jitter on x, quarter jitter on z
    draws[0] = word(100);
    draws[1] = word(1 << 23);
    draws[2] = word(1 << 22);
    for i in 3..9 {
        draws[i] = word(1 << 23);
    }
    let scene = compose_scene(&draws, false);
    let center = Point3 {
        x: -5 * GRID_SPACING + JITTER_STEP * (1 << 23),
        y: FILLER_RADIUS,
        z: -5 * GRID_SPACING + JITTER_STEP * (1 << 22),
    };
    assert_eq!(center.x, -10 * UNIT + 45 * UNIT / 100);
    assert_eq!(center.z, -10 * UNIT + 225 * UNIT / 1000);
    // a quarter: one half times one half
    let quarter = UNIT / 4;
    assert_eq!(
        scene.surfaces[1],
        Surface::Sphere {
            center,
            radius: FILLER_RADIUS,
            material: Material::Diffuse { albedo: Color { r: quarter, g: quarter, b: quarter } },
        }
    );
}

#[test]
fn reflective_and_refractive_fillers() {
    let mut draws = vec![0u32; DRAW_BUDGET];
    draws[0] = word(13421773);
    draws[3] = word(1 << 23);
    draws[4] = word(0);
    draws[5] = word(16777215);
    draws[6] = word(1 << 23);
    // the second cell starts at draw 7
    draws[7] = word(15938355);
    let scene = compose_scene(&draws, false);
    assert_eq!(
        scene.surfaces[1],
        Surface::Sphere {
            center: Point3 { x: -5 * GRID_SPACING, y: FILLER_RADIUS, z: -5 * GRID_SPACING },
            radius: FILLER_RADIUS,
            material: Material::Reflective {
                albedo: Color {
                    r: 3 * UNIT / 4,
                    g: UNIT / 2,
                    b: UNIT / 2 + HALF_STEP * 16777215,
                },
                fuzz: UNIT / 4,
            },
        }
    );
    assert_eq!(
        scene.surfaces[2],
        Surface::Sphere {
            center: Point3 { x: -5 * GRID_SPACING, y: FILLER_RADIUS, z: -4 * GRID_SPACING },
            radius: FILLER_RADIUS,
            material: Material::Refractive { index: GLASS_INDEX },
        }
    );
    // the third cell starts at draw 10: all zeros, so a dark diffuse sphere
    assert!(matches!(
        scene.surfaces[3],
        Surface::Sphere { material: Material::Diffuse { .. }, .. }
    ));
}

#[test]
fn moving_diffuse_filler() {
    let mut draws = vec![0u32; DRAW_BUDGET];
    draws[3] = word(1 << 23);
    let scene = compose_scene(&draws, true);
    let s = scene.surfaces[1];
    let c0 = Point3 { x: -5 * GRID_SPACING, y: FILLER_RADIUS, z: -5 * GRID_SPACING };
    let c1 = Point3 { x: c0.x, y: FILLER_RADIUS + UNIT / 4, z: c0.z };
    assert_eq!(
        s,
        Surface::MovingSphere {
            center0: c0,
            center1: c1,
            time0: 0,
            time1: UNIT,
            radius: FILLER_RADIUS,
            material: Material::Diffuse { albedo: Color { r: 0, g: 0, b: 0 } },
        }
    );
    assert_eq!(s.center_at(0), c0);
    assert_eq!(s.center_at(UNIT), c1);
    assert_eq!(s.center_at(UNIT / 2), Point3 { x: c0.x, y: (c0.y + c1.y) / 2, z: c0.z });
    // extrapolation beyond the window
    assert_eq!(s.center_at(2 * UNIT), Point3 { x: c0.x, y: c0.y + UNIT / 2, z: c0.z });
    assert_eq!(s.center_at(-UNIT), Point3 { x: c0.x, y: c0.y - UNIT / 4, z: c0.z });
}

#[test]
fn still_filler_ignores_time() {
    let mut draws = vec![0u32; DRAW_BUDGET];
    draws[0] = word(16000000);
    let scene = compose_scene(&draws, true);
    let s = scene.surfaces[1];
    assert!(matches!(s, Surface::Sphere { .. }));
    assert_eq!(s.center_at(0), s.center_at(UNIT));
    assert_eq!(s.center_at(-7), s.center_at(UNIT / 2));
    assert_eq!(s.material(), Material::Refractive { index: GLASS_INDEX });
}

#[test]
fn static_scene_has_no_motion() {
    let mut rng = StdRng::seed_from_u64(7);
    let scene = random_scene(&mut rng);
    check_frame(&scene);
    for s in &scene.surfaces {
        assert!(matches!(s, Surface::Sphere { .. }));
    }
}

#[test]
fn motion_only_for_diffuse_fillers() {
    let mut rng = StdRng::seed_from_u64(11);
    let scene = random_scene_with_motion(&mut rng);
    check_frame(&scene);
    let n = scene.surfaces.len();
    for s in &scene.surfaces[1..n - 3] {
        match s {
            Surface::MovingSphere { material, time0, time1, .. } => {
                assert!(matches!(material, Material::Diffuse { .. }));
                assert_eq!((*time0, *time1), (0, UNIT));
            }
            Surface::Sphere { material, .. } => {
                assert!(!matches!(material, Material::Diffuse { .. }));
            }
        }
    }
}

#[test]
fn same_seed_same_scene() {
    for seed in [0u64, 1, 42, 2024] {
        let a = random_scene(&mut StdRng::seed_from_u64(seed));
        let b = random_scene(&mut StdRng::seed_from_u64(seed));
        assert_eq!(a, b);
        let c = random_scene_with_motion(&mut StdRng::seed_from_u64(seed));
        let d = random_scene_with_motion(&mut StdRng::seed_from_u64(seed));
        assert_eq!(c, d);
    }
}

#[test]
fn seeded_scene_matches_its_draws() {
    let draws = draw_words(&mut StdRng::seed_from_u64(5), DRAW_BUDGET);
    assert_eq!(draws.len(), DRAW_BUDGET);
    let scene = random_scene(&mut StdRng::seed_from_u64(5));
    assert_eq!(scene, compose_scene(&draws, false));
}

#[test]
fn count_follows_clear_candidates() {
    for seed in 0u64..20 {
        let draws = draw_words(&mut StdRng::seed_from_u64(seed), DRAW_BUDGET);
        for motion in [false, true] {
            let scene = compose_scene(&draws, motion);
            let n = scene.surfaces.len();
            // replay the draws to count the cells whose candidate is clear
            let mut pos = 0usize;
            let mut clear = 0usize;
            for k in 0..100i64 {
                let sel = unit_draw(draws[pos]);
                let p = Point3 {
                    x: GRID_SPACING * (k / 10 - 5) + JITTER_STEP * unit_draw(draws[pos + 1]) as i64,
                    y: FILLER_RADIUS,
                    z: GRID_SPACING * (k % 10 - 5) + JITTER_STEP * unit_draw(draws[pos + 2]) as i64,
                };
                if !candidate_clear(p) {
                    pos += 3;
                    continue;
                }
                clear += 1;
                pos += match classify(sel) {
                    MaterialKind::Diffuse => if motion { 10 } else { 9 },
                    MaterialKind::Reflective => 7,
                    MaterialKind::Refractive => 3,
                };
            }
            assert_eq!(n, 4 + clear);
            for s in &scene.surfaces[1..n - 3] {
                assert!(candidate_clear(start_center(s)));
                assert!(is_clear_of_reference(start_center(s)));
            }
        }
    }
}
