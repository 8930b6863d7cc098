use planet_gen::face::{Axis, Face};
use planet_gen::grid::{check_resolution, face_grid, grid_points, grid_triangles, GridPoint};
use planet_gen::planet::{Planet, PlanetError};
use planet_gen::regen::{BuildOutcome, CycleAction, PlanetBody};

/// Terrain settings as the application holds them.
#[derive(Clone, Copy, Debug, PartialEq)]
struct Terrain {
    strength: f32,
    base_roughness: f32,
    roughness: f32,
    persistence: f32,
}

fn terrain() -> Terrain {
    Terrain { strength: 1.0, base_roughness: 1.0, roughness: 2.0, persistence: 0.5 }
}

/// A stand-in mesh: the face it was built for and the resolution it used.
type Tag = (Face, u32);

fn build_tags(planet: &Planet<Terrain>) -> Vec<Tag> {
    Face::all().into_iter().map(|f| (f, planet.resolution)).collect()
}

fn dispatched(action: CycleAction<Terrain>) -> (Planet<Terrain>, u64) {
    match action {
        CycleAction::Dispatch(req) => (req.planet, req.version),
        other => panic!("expected a dispatch, got {:?}", other),
    }
}

#[test]
fn faces_in_build_order() {
    assert_eq!(
        Face::all(),
        vec![Face::Top, Face::Down, Face::Left, Face::Right, Face::Front, Face::Back]
    );
}

#[test]
fn face_orientations() {
    assert_eq!(Face::Top.orientation(), Axis { x: 0, y: 1, z: 0 });
    assert_eq!(Face::Down.orientation(), Axis { x: 0, y: -1, z: 0 });
    assert_eq!(Face::Left.orientation(), Axis { x: -1, y: 0, z: 0 });
    assert_eq!(Face::Right.orientation(), Axis { x: 1, y: 0, z: 0 });
    assert_eq!(Face::Front.orientation(), Axis { x: 0, y: 0, z: 1 });
    assert_eq!(Face::Back.orientation(), Axis { x: 0, y: 0, z: -1 });
}

#[test]
fn tangent_axes_follow_the_rotation_convention() {
    assert_eq!(
        Face::Top.tangent_axes(),
        (Axis { x: 1, y: 0, z: 0 }, Axis { x: 0, y: 0, z: -1 })
    );
    assert_eq!(
        Face::Left.tangent_axes(),
        (Axis { x: 0, y: 0, z: -1 }, Axis { x: 0, y: -1, z: 0 })
    );
    assert_eq!(
        Face::Back.tangent_axes(),
        (Axis { x: 0, y: -1, z: 0 }, Axis { x: -1, y: 0, z: 0 })
    );
}

#[test]
fn tangent_axes_cross_to_the_face_direction() {
    for face in Face::all() {
        let (a, b) = face.tangent_axes();
        assert_eq!(a.cross(&b), face.orientation());
    }
}

#[test]
fn cross_of_unit_axes() {
    let x = Axis { x: 1, y: 0, z: 0 };
    let y = Axis { x: 0, y: 1, z: 0 };
    assert_eq!(x.cross(&y), Axis { x: 0, y: 0, z: 1 });
    assert_eq!(y.cross(&x), Axis { x: 0, y: 0, z: -1 });
    assert_eq!(x.cross(&x), Axis { x: 0, y: 0, z: 0 });
}

#[test]
fn with_resolution_sets_defaults() {
    let p = Planet::with_resolution(300, 42, terrain());
    assert_eq!(p.resolution, 300);
    assert_eq!(p.seed, 42);
    assert_eq!(p.layers, 1);
    assert_eq!(p.surface, terrain());
}

#[test]
fn resolution_two_gives_minimal_face() {
    let grid = face_grid(2).unwrap();
    assert_eq!(
        grid.points,
        vec![
            GridPoint { x: 0, y: 0 },
            GridPoint { x: 1, y: 0 },
            GridPoint { x: 0, y: 1 },
            GridPoint { x: 1, y: 1 },
        ]
    );
    assert_eq!(grid.triangles, vec![0, 3, 2, 0, 1, 3]);
    assert_eq!(grid.triangles.len() / 3, 2);
    let total: usize = Face::all().iter().map(|_| grid.triangles.len() / 3).sum();
    assert_eq!(total, 12);
}

#[test]
fn resolution_ten_counts() {
    let grid = face_grid(10).unwrap();
    assert_eq!(grid.points.len(), 100);
    assert_eq!(grid.triangles.len() / 3, 162);
    let again = face_grid(10).unwrap();
    assert_eq!(grid.points, again.points);
    assert_eq!(grid.triangles, again.triangles);
}

#[test]
fn counts_match_formulas() {
    for r in 2u32..=12 {
        let n = r as usize;
        assert_eq!(grid_points(r).len(), n * n);
        assert_eq!(grid_triangles(r).len(), 3 * 2 * (n - 1) * (n - 1));
    }
}

#[test]
fn three_by_three_indices() {
    assert_eq!(
        grid_triangles(3),
        vec![
            0, 4, 3, 0, 1, 4, //
            1, 5, 4, 1, 2, 5, //
            3, 7, 6, 3, 4, 7, //
            4, 8, 7, 4, 5, 8,
        ]
    );
}

#[test]
fn grid_points_are_row_major() {
    let pts = grid_points(4);
    assert_eq!(pts[0], GridPoint { x: 0, y: 0 });
    assert_eq!(pts[3], GridPoint { x: 3, y: 0 });
    assert_eq!(pts[4], GridPoint { x: 0, y: 1 });
    assert_eq!(pts[13], GridPoint { x: 1, y: 3 });
}

#[test]
fn resolution_below_two_is_invalid() {
    assert_eq!(check_resolution(0), Err(PlanetError::InvalidConfig));
    assert_eq!(check_resolution(1), Err(PlanetError::InvalidConfig));
    assert!(matches!(face_grid(1), Err(PlanetError::InvalidConfig)));
    assert!(matches!(face_grid(0), Err(PlanetError::InvalidConfig)));
    assert_eq!(check_resolution(2), Ok(()));
}

#[test]
fn oversized_resolution_fails_to_build() {
    assert_eq!(check_resolution(26755), Ok(()));
    assert_eq!(check_resolution(26756), Err(PlanetError::BuildFailed));
    assert_eq!(check_resolution(u32::MAX), Err(PlanetError::BuildFailed));
    assert!(matches!(face_grid(30000), Err(PlanetError::BuildFailed)));
}

#[test]
fn new_body_is_dirty_and_unbuilt() {
    let body: PlanetBody<Terrain, Tag> = PlanetBody::new(Planet::with_resolution(10, 42, terrain()));
    assert!(body.is_dirty());
    assert_eq!(body.version(), 0);
    assert!(body.meshes().is_empty());
}

#[test]
fn first_cycle_builds_and_cleans() {
    let mut body: PlanetBody<Terrain, Tag> =
        PlanetBody::new(Planet::with_resolution(10, 42, terrain()));
    let (snapshot, version) = dispatched(body.begin_cycle());
    assert_eq!(version, 0);
    assert_eq!(snapshot.resolution, 10);
    assert!(matches!(body.begin_cycle(), CycleAction::Waiting));
    assert_eq!(body.finish_build(version, Ok(build_tags(&snapshot))), BuildOutcome::Applied);
    assert!(!body.is_dirty());
    assert_eq!(body.meshes().len(), 6);
    assert!(matches!(body.begin_cycle(), CycleAction::Idle));
}

#[test]
fn invalid_resolution_keeps_meshes() {
    let mut body: PlanetBody<Terrain, Tag> =
        PlanetBody::new(Planet::with_resolution(10, 42, terrain()));
    let (snapshot, version) = dispatched(body.begin_cycle());
    body.finish_build(version, Ok(build_tags(&snapshot)));
    let before = body.meshes().clone();
    body.set_resolution(1);
    assert!(matches!(
        body.begin_cycle(),
        CycleAction::Rejected(PlanetError::InvalidConfig)
    ));
    assert!(body.is_dirty());
    assert_eq!(body.meshes(), &before);
    body.set_resolution(0);
    let r = body.update_planet_on_resolution_change(|p, f| (f, p.resolution));
    assert_eq!(r, Err(PlanetError::InvalidConfig));
    assert_eq!(body.meshes(), &before);
}

#[test]
fn failed_build_keeps_meshes_and_retries() {
    let mut body: PlanetBody<Terrain, Tag> =
        PlanetBody::new(Planet::with_resolution(4, 7, terrain()));
    let (snapshot, version) = dispatched(body.begin_cycle());
    body.finish_build(version, Ok(build_tags(&snapshot)));
    let before = body.meshes().clone();
    body.set_resolution(5);
    let (_, version) = dispatched(body.begin_cycle());
    assert_eq!(
        body.finish_build(version, Err(PlanetError::BuildFailed)),
        BuildOutcome::Failed(PlanetError::BuildFailed)
    );
    assert_eq!(body.meshes(), &before);
    assert!(body.is_dirty());
    let (snapshot, version) = dispatched(body.begin_cycle());
    assert_eq!(snapshot.resolution, 5);
    assert_eq!(
        body.finish_build(version, Ok(vec![(Face::Top, 5)])),
        BuildOutcome::Failed(PlanetError::BuildFailed)
    );
    assert_eq!(body.meshes(), &before);
}

#[test]
fn resolution_change_discards_stale_build() {
    let mut body: PlanetBody<Terrain, Tag> =
        PlanetBody::new(Planet::with_resolution(10, 42, terrain()));
    let (old_snapshot, old_version) = dispatched(body.begin_cycle());
    body.set_resolution(20);
    assert_eq!(body.version(), 1);
    assert_eq!(
        body.finish_build(old_version, Ok(build_tags(&old_snapshot))),
        BuildOutcome::Discarded
    );
    assert!(body.meshes().is_empty());
    assert!(body.is_dirty());
    let (snapshot, version) = dispatched(body.begin_cycle());
    assert_eq!(version, 1);
    assert_eq!(snapshot.resolution, 20);
    assert_eq!(body.finish_build(version, Ok(build_tags(&snapshot))), BuildOutcome::Applied);
    assert_eq!(body.meshes().len(), 6);
    assert!(body.meshes().iter().all(|&(_, r)| r == 20));
}

#[test]
fn synchronous_pass_builds_every_face_once() {
    let mut body: PlanetBody<Terrain, Tag> =
        PlanetBody::new(Planet::with_resolution(10, 42, terrain()));
    body.set_resolution(20);
    assert_eq!(body.update_planet_on_resolution_change(|p, f| (f, p.resolution)), Ok(true));
    let expected: Vec<Tag> = Face::all().into_iter().map(|f| (f, 20)).collect();
    assert_eq!(body.meshes(), &expected);
    assert!(!body.is_dirty());
    assert_eq!(body.update_planet_on_resolution_change(|p, f| (f, p.resolution)), Ok(false));
    assert_eq!(body.meshes(), &expected);
}

#[test]
fn set_planet_bumps_version() {
    let mut body: PlanetBody<Terrain, Tag> =
        PlanetBody::new(Planet::with_resolution(10, 42, terrain()));
    body.update_planet_on_resolution_change(|p, f| (f, p.resolution)).unwrap();
    let mut next = *body.planet();
    next.seed = 43;
    body.set_planet(next);
    assert_eq!(body.version(), 1);
    assert!(body.is_dirty());
    assert_eq!(body.planet().seed, 43);
    assert_eq!(body.meshes().len(), 6);
}

fn cube_point(face: Face, r: i32, p: GridPoint) -> [i32; 3] {
    let up = face.orientation();
    let (a, b) = face.tangent_axes();
    let e = r - 1;
    let (s, t) = (2 * p.x as i32 - e, 2 * p.y as i32 - e);
    [
        e * up.x as i32 + s * a.x as i32 + t * b.x as i32,
        e * up.y as i32 + s * a.y as i32 + t * b.y as i32,
        e * up.z as i32 + s * a.z as i32 + t * b.z as i32,
    ]
}

#[test]
fn triangles_wind_outward_on_cube() {
    let r = 5u32;
    let grid = face_grid(r).unwrap();
    for face in Face::all() {
        let up = face.orientation();
        for tri in grid.triangles.chunks(3) {
            let p: Vec<[i32; 3]> =
                tri.iter().map(|&i| cube_point(face, r as i32, grid.points[i as usize])).collect();
            let u = [p[1][0] - p[0][0], p[1][1] - p[0][1], p[1][2] - p[0][2]];
            let v = [p[2][0] - p[0][0], p[2][1] - p[0][1], p[2][2] - p[0][2]];
            let n = [u[1] * v[2] - u[2] * v[1], u[2] * v[0] - u[0] * v[2], u[0] * v[1] - u[1] * v[0]];
            assert_eq!(n, [4 * up.x as i32, 4 * up.y as i32, 4 * up.z as i32]);
            let d = n[0] * up.x as i32 + n[1] * up.y as i32 + n[2] * up.z as i32;
            assert!(d > 0);
        }
    }
}
