use vstd::prelude::*;
use vstd::arithmetic::div_mod::{lemma_fundamental_div_mod, lemma_fundamental_div_mod_converse};

use crate::face::{
    axis_a_of, axis_b_of, cross_x, cross_y, cross_z, lemma_face_frame, orientation_of, Axis, Face,
};
use crate::grid::{is_buildable, triangle_count, triangle_index};

verus! {

/// Sample `(x, y)` of a face grid on the surface of the cube, before it is
/// projected onto the sphere. Coordinates are scaled by `resolution - 1` so
/// that they are integers: `(r-1)·up + (2x - (r-1))·a + (2y - (r-1))·b`.
pub open spec fn cube_point(up: Axis, a: Axis, b: Axis, resolution: int, x: int, y: int) -> (
    int,
    int,
    int,
) {
    let e = resolution - 1;
    (
        e * up.x + (2 * x - e) * a.x + (2 * y - e) * b.x,
        e * up.y + (2 * x - e) * a.y + (2 * y - e) * b.y,
        e * up.z + (2 * x - e) * a.z + (2 * y - e) * b.z,
    )
}

/// Corner `m` (0..3) of triangle `t` of a face, on the cube.
pub open spec fn triangle_corner_on_cube(face: Face, resolution: int, t: int, m: int) -> (
    int,
    int,
    int,
) {
    let i = triangle_index(resolution, 3 * t + m);
    cube_point(
        orientation_of(face),
        axis_a_of(face),
        axis_b_of(face),
        resolution,
        i % resolution,
        i / resolution,
    )
}

pub open spec fn sub3(p: (int, int, int), q: (int, int, int)) -> (int, int, int) {
    (p.0 - q.0, p.1 - q.1, p.2 - q.2)
}

pub open spec fn cross3(p: (int, int, int), q: (int, int, int)) -> (int, int, int) {
    (p.1 * q.2 - p.2 * q.1, p.2 * q.0 - p.0 * q.2, p.0 * q.1 - p.1 * q.0)
}

pub open spec fn dot3(p: (int, int, int), q: (int, int, int)) -> int {
    p.0 * q.0 + p.1 * q.1 + p.2 * q.2
}

/// The normal `(p1 - p0) × (p2 - p0)` of triangle `t` of a face, on the cube.
pub open spec fn triangle_normal_on_cube(face: Face, resolution: int, t: int) -> (int, int, int) {
    let p0 = triangle_corner_on_cube(face, resolution, t, 0);
    let p1 = triangle_corner_on_cube(face, resolution, t, 1);
    let p2 = triangle_corner_on_cube(face, resolution, t, 2);
    cross3(sub3(p1, p0), sub3(p2, p0))
}

/// Sample number `cx + cy * r` of a grid sits in column `cx` and row `cy`.
proof fn lemma_sample_coordinates(resolution: int, cx: int, cy: int)
    requires
        resolution >= 1,
        0 <= cx < resolution,
        0 <= cy,
    ensures
        (cx + cy * resolution) % resolution == cx,
        (cx + cy * resolution) / resolution == cy,
{
    lemma_fundamental_div_mod_converse(cx + cy * resolution, resolution, cy, cx);
}

/// The corners of triangle `t` in grid coordinates: triangle `2c` of cell `c`
/// is `(cx, cy), (cx+1, cy+1), (cx, cy+1)`, triangle `2c + 1` is
/// `(cx, cy), (cx+1, cy), (cx+1, cy+1)`.
proof fn lemma_triangle_corners(resolution: int, t: int) -> (cell: (int, int))
    requires
        is_buildable(resolution),
        0 <= t < triangle_count(resolution),
    ensures
        0 <= cell.0 < resolution - 1,
        0 <= cell.1 < resolution - 1,
        t % 2 == 0 ==> triangle_index(resolution, 3 * t) == cell.0 + cell.1 * resolution
            && triangle_index(resolution, 3 * t + 1) == (cell.0 + 1) + (cell.1 + 1) * resolution
            && triangle_index(resolution, 3 * t + 2) == cell.0 + (cell.1 + 1) * resolution,
        t % 2 == 1 ==> triangle_index(resolution, 3 * t) == cell.0 + cell.1 * resolution
            && triangle_index(resolution, 3 * t + 1) == (cell.0 + 1) + cell.1 * resolution
            && triangle_index(resolution, 3 * t + 2) == (cell.0 + 1) + (cell.1 + 1) * resolution,
{
    let e = resolution - 1;
    let c = t / 2;
    let h = t % 2;
    lemma_fundamental_div_mod(t, 2);
    assert(0 <= c < e * e);
    let cx = c % e;
    let cy = c / e;
    lemma_fundamental_div_mod(c, e);
    assert(0 <= cy < e) by (nonlinear_arith)
        requires
            c == e * cy + cx,
            0 <= cx < e,
            0 <= c < e * e,
    ;
    assert(c == cy * e + cx) by (nonlinear_arith)
        requires
            c == e * cy + cx,
    ;
    assert(3 * t == 6 * c + 3 * h);
    lemma_fundamental_div_mod_converse(3 * t, 6, c, 3 * h);
    assert(3 * t + 1 == 6 * c + (3 * h + 1));
    lemma_fundamental_div_mod_converse(3 * t + 1, 6, c, 3 * h + 1);
    assert(3 * t + 2 == 6 * c + (3 * h + 2));
    lemma_fundamental_div_mod_converse(3 * t + 2, 6, c, 3 * h + 2);
    lemma_fundamental_div_mod_converse(c, e, cy, cx);
    assert((cx + 1) + (cy + 1) * resolution == cx + cy * resolution + resolution + 1)
        by (nonlinear_arith);
    assert(cx + (cy + 1) * resolution == cx + cy * resolution + resolution) by (nonlinear_arith);
    (cx, cy)
}

/// Moving `dx` columns and `dy` rows on a face moves the cube point by
/// `2·dx·a + 2·dy·b`.
proof fn lemma_cube_step(up: Axis, a: Axis, b: Axis, resolution: int, x: int, y: int, dx: int, dy: int)
    ensures
        sub3(cube_point(up, a, b, resolution, x + dx, y + dy), cube_point(up, a, b, resolution, x, y))
            == (2 * dx * a.x + 2 * dy * b.x, 2 * dx * a.y + 2 * dy * b.y, 2 * dx * a.z + 2 * dy * b.z),
{
    let e = resolution - 1;
    let (ux, uy, uz, ax, ay, az, bx, by, bz) = (
        up.x as int,
        up.y as int,
        up.z as int,
        a.x as int,
        a.y as int,
        a.z as int,
        b.x as int,
        b.y as int,
        b.z as int,
    );
    assert(e * ux + (2 * (x + dx) - e) * ax + (2 * (y + dy) - e) * bx - (e * ux + (2 * x - e) * ax
        + (2 * y - e) * bx) == 2 * dx * ax + 2 * dy * bx) by (nonlinear_arith);
    assert(e * uy + (2 * (x + dx) - e) * ay + (2 * (y + dy) - e) * by - (e * uy + (2 * x - e) * ay
        + (2 * y - e) * by) == 2 * dx * ay + 2 * dy * by) by (nonlinear_arith);
    assert(e * uz + (2 * (x + dx) - e) * az + (2 * (y + dy) - e) * bz - (e * uz + (2 * x - e) * az
        + (2 * y - e) * bz) == 2 * dx * az + 2 * dy * bz) by (nonlinear_arith);
}

/// The cross product of the two edges of either triangle of a cell:
/// `(2a + 2b) × 2b == 2a × (2a + 2b) == 4·(a × b)`.
proof fn lemma_cross_of_edges(a: Axis, b: Axis)
    ensures
        cross3((2 * a.x + 2 * b.x, 2 * a.y + 2 * b.y, 2 * a.z + 2 * b.z), (2 * b.x, 2 * b.y, 2 * b.z))
            == (4 * cross_x(a, b), 4 * cross_y(a, b), 4 * cross_z(a, b)),
        cross3((2 * a.x, 2 * a.y, 2 * a.z), (2 * a.x + 2 * b.x, 2 * a.y + 2 * b.y, 2 * a.z + 2 * b.z))
            == (4 * cross_x(a, b), 4 * cross_y(a, b), 4 * cross_z(a, b)),
{
    let (ax, ay, az, bx, by, bz) = (a.x as int, a.y as int, a.z as int, b.x as int, b.y as int, b.z as int);
    assert((2 * ay + 2 * by) * (2 * bz) - (2 * az + 2 * bz) * (2 * by) == 4 * (ay * bz - az * by))
        by (nonlinear_arith);
    assert((2 * az + 2 * bz) * (2 * bx) - (2 * ax + 2 * bx) * (2 * bz) == 4 * (az * bx - ax * bz))
        by (nonlinear_arith);
    assert((2 * ax + 2 * bx) * (2 * by) - (2 * ay + 2 * by) * (2 * bx) == 4 * (ax * by - ay * bx))
        by (nonlinear_arith);
    assert((2 * ay) * (2 * az + 2 * bz) - (2 * az) * (2 * ay + 2 * by) == 4 * (ay * bz - az * by))
        by (nonlinear_arith);
    assert((2 * az) * (2 * ax + 2 * bx) - (2 * ax) * (2 * az + 2 * bz) == 4 * (az * bx - ax * bz))
        by (nonlinear_arith);
    assert((2 * ax) * (2 * ay + 2 * by) - (2 * ay) * (2 * ax + 2 * bx) == 4 * (ax * by - ay * bx))
        by (nonlinear_arith);
}

/// Every triangle of every face winds counter-clockwise seen from outside the
/// cube: before the projection onto the sphere, its normal
/// `(p1 - p0) × (p2 - p0)` is `4·up`, so its dot product with the face's
/// outward direction is positive.
pub proof fn lemma_triangles_face_outward(face: Face, resolution: int, t: int)
    requires
        is_buildable(resolution),
        0 <= t < triangle_count(resolution),
    ensures
        triangle_normal_on_cube(face, resolution, t) == (
            4 * orientation_of(face).x,
            4 * orientation_of(face).y,
            4 * orientation_of(face).z,
        ),
        dot3(
            triangle_normal_on_cube(face, resolution, t),
            (orientation_of(face).x as int, orientation_of(face).y as int, orientation_of(face).z as int),
        ) == 4,
{
    let cell = lemma_triangle_corners(resolution, t);
    let (cx, cy) = cell;
    lemma_sample_coordinates(resolution, cx, cy);
    lemma_sample_coordinates(resolution, cx + 1, cy);
    lemma_sample_coordinates(resolution, cx, cy + 1);
    lemma_sample_coordinates(resolution, cx + 1, cy + 1);
    lemma_face_frame(face);
    let (up, a, b) = (orientation_of(face), axis_a_of(face), axis_b_of(face));
    if t % 2 == 0 {
        lemma_cube_step(up, a, b, resolution, cx, cy, 1, 1);
        lemma_cube_step(up, a, b, resolution, cx, cy, 0, 1);
        lemma_cross_of_edges(a, b);
    } else {
        lemma_cube_step(up, a, b, resolution, cx, cy, 1, 0);
        lemma_cube_step(up, a, b, resolution, cx, cy, 1, 1);
        lemma_cross_of_edges(a, b);
    }
    match face {
        Face::Top => {
            let v: (int, int, int) = (0, 1, 0);
            assert(up == Axis { x: 0, y: 1, z: 0 });
            assert(dot3((4 * v.0, 4 * v.1, 4 * v.2), v) == 4);
        },
        Face::Down => {
            let v: (int, int, int) = (0, -1, 0);
            assert(up == Axis { x: 0, y: -1i8, z: 0 });
            assert(dot3((4 * v.0, 4 * v.1, 4 * v.2), v) == 4);
        },
        Face::Left => {
            let v: (int, int, int) = (-1, 0, 0);
            assert(up == Axis { x: -1i8, y: 0, z: 0 });
            assert(dot3((4 * v.0, 4 * v.1, 4 * v.2), v) == 4);
        },
        Face::Right => {
            let v: (int, int, int) = (1, 0, 0);
            assert(up == Axis { x: 1, y: 0, z: 0 });
            assert(dot3((4 * v.0, 4 * v.1, 4 * v.2), v) == 4);
        },
        Face::Front => {
            let v: (int, int, int) = (0, 0, 1);
            assert(up == Axis { x: 0, y: 0, z: 1 });
            assert(dot3((4 * v.0, 4 * v.1, 4 * v.2), v) == 4);
        },
        Face::Back => {
            let v: (int, int, int) = (0, 0, -1);
            assert(up == Axis { x: 0, y: 0, z: -1i8 });
            assert(dot3((4 * v.0, 4 * v.1, 4 * v.2), v) == 4);
        },
    }
}

} // verus!
