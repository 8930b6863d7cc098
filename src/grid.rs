use vstd::prelude::*;
use vstd::arithmetic::div_mod::lemma_fundamental_div_mod_converse;

use crate::planet::PlanetError;

verus! {

/// Number of grid samples on a face with `resolution` samples per edge.
pub open spec fn vertex_count(resolution: int) -> int {
    resolution * resolution
}

/// Number of grid cells (quads between four neighbouring samples) on a face.
pub open spec fn cell_count(resolution: int) -> int {
    (resolution - 1) * (resolution - 1)
}

/// Number of triangles on a face: two per cell.
pub open spec fn triangle_count(resolution: int) -> int {
    2 * cell_count(resolution)
}

/// Length of a face's triangle index list: three per triangle.
pub open spec fn index_count(resolution: int) -> int {
    3 * triangle_count(resolution)
}

/// Whether a face with `resolution` samples per edge has at least one cell
/// and every index of its mesh, after each triangle gets its own three
/// vertices, still fits in a `u32`.
pub open spec fn is_buildable(resolution: int) -> bool {
    resolution >= 2 && index_count(resolution) <= u32::MAX
}

/// A sample position on a face grid: column `x`, row `y`.
#[derive(Clone, Copy, Debug, PartialEq, Eq, Structural)]
pub struct GridPoint {
    pub x: u32,
    pub y: u32,
}

/// Samples are numbered row by row: sample `i` sits in column `i % resolution`
/// and row `i / resolution`.
pub open spec fn grid_point_at(resolution: int, i: int) -> (int, int) {
    (i % resolution, i / resolution)
}

/// Corner `k` (0..6) of the two triangles of the cell whose lower-left sample
/// is `(cx, cy)`: `(i, i + r + 1, i + r)` and `(i, i + 1, i + r + 1)` with
/// `i = cx + cy * r`.
pub open spec fn cell_corner(resolution: int, cx: int, cy: int, k: int) -> int {
    let i = cx + cy * resolution;
    if k == 0 || k == 3 {
        i
    } else if k == 1 || k == 5 {
        i + resolution + 1
    } else if k == 2 {
        i + resolution
    } else {
        i + 1
    }
}

/// Entry `j` of a face's triangle index list. Cells are visited row by row,
/// six entries per cell.
pub open spec fn triangle_index(resolution: int, j: int) -> int {
    let cell = j / 6;
    cell_corner(resolution, cell % (resolution - 1), cell / (resolution - 1), j % 6)
}

/// A buildable face has fewer samples than index entries, so its sample
/// numbers fit in a `u32` too.
pub proof fn lemma_vertex_count_bound(resolution: int)
    requires
        is_buildable(resolution),
    ensures
        vertex_count(resolution) <= index_count(resolution),
        vertex_count(resolution) <= u32::MAX,
{
    assert(resolution * resolution <= 6 * ((resolution - 1) * (resolution - 1)))
        by (nonlinear_arith)
        requires
            resolution >= 2,
    ;
}

/// Tells whether a face grid can be built with `resolution` samples per edge.
pub fn check_resolution(resolution: u32) -> (r: Result<(), PlanetError>)
    ensures
        r is Ok <==> is_buildable(resolution as int),
        r == Err::<(), PlanetError>(PlanetError::InvalidConfig) <==> resolution < 2,
        r == Err::<(), PlanetError>(PlanetError::BuildFailed) <==> (resolution >= 2
            && !is_buildable(resolution as int)),
{
    if resolution < 2 {
        return Err(PlanetError::InvalidConfig);
    }
    let edge = (resolution - 1) as u64;
    assert(edge * edge <= u32::MAX * u32::MAX) by (nonlinear_arith)
        requires
            edge <= u32::MAX,
    ;
    let cells: u64 = edge * edge;
    if cells > (u32::MAX / 6) as u64 {
        Err(PlanetError::BuildFailed)
    } else {
        Ok(())
    }
}

/// The samples of a face grid, row by row.
pub fn grid_points(resolution: u32) -> (r: Vec<GridPoint>)
    requires
        is_buildable(resolution as int),
    ensures
        r.len() == vertex_count(resolution as int),
        forall|i: int|
            0 <= i < r.len() ==> (r[i].x as int, r[i].y as int) == #[trigger] grid_point_at(
                resolution as int,
                i,
            ),
{
    proof {
        lemma_vertex_count_bound(resolution as int);
    }
    let ghost res = resolution as int;
    let mut points: Vec<GridPoint> = Vec::new();
    let mut y: u32 = 0;
    while y < resolution
        invariant
            res == resolution,
            is_buildable(res),
            0 <= y <= res,
            points.len() == y * res,
            forall|i: int|
                0 <= i < points.len() ==> (points[i].x as int, points[i].y as int)
                    == #[trigger] grid_point_at(res, i),
        decreases res - y,
    {
        let mut x: u32 = 0;
        while x < resolution
            invariant
                res == resolution,
                is_buildable(res),
                0 <= y < res,
                0 <= x <= res,
                points.len() == y * res + x,
                forall|i: int|
                    0 <= i < points.len() ==> (points[i].x as int, points[i].y as int)
                        == #[trigger] grid_point_at(res, i),
            decreases res - x,
        {
            proof {
                lemma_fundamental_div_mod_converse(y * res + x, res, y as int, x as int);
            }
            points.push(GridPoint { x, y });
            x = x + 1;
        }
        assert((y + 1) * res == y * res + res) by (nonlinear_arith);
        y = y + 1;
    }
    points
}

/// Entry `6 * c + k` of the index list is corner `k` of cell `c`, where cell
/// `c` sits in column `c % (r - 1)` and row `c / (r - 1)`.
proof fn lemma_triangle_index_at(resolution: int, cx: int, cy: int, k: int)
    requires
        resolution >= 2,
        0 <= cx < resolution - 1,
        0 <= cy < resolution - 1,
        0 <= k < 6,
    ensures
        triangle_index(resolution, 6 * (cy * (resolution - 1) + cx) + k) == cell_corner(
            resolution,
            cx,
            cy,
            k,
        ),
{
    let c = cy * (resolution - 1) + cx;
    lemma_fundamental_div_mod_converse(6 * c + k, 6, c, k);
    lemma_fundamental_div_mod_converse(c, resolution - 1, cy, cx);
}

/// The triangle index list of a face grid: two counter-clockwise triangles per
/// cell, cells row by row.
pub fn grid_triangles(resolution: u32) -> (r: Vec<u32>)
    requires
        is_buildable(resolution as int),
    ensures
        r.len() == index_count(resolution as int),
        forall|j: int|
            0 <= j < r.len() ==> r[j] as int == #[trigger] triangle_index(resolution as int, j),
{
    proof {
        lemma_vertex_count_bound(resolution as int);
    }
    let ghost res = resolution as int;
    let edge: u32 = resolution - 1;
    let mut indices: Vec<u32> = Vec::new();
    let mut cy: u32 = 0;
    while cy < edge
        invariant
            res == resolution,
            edge == res - 1,
            is_buildable(res),
            res * res <= u32::MAX,
            0 <= cy <= edge,
            indices.len() == 6 * (cy * edge),
            forall|j: int|
                0 <= j < indices.len() ==> indices[j] as int == #[trigger] triangle_index(res, j),
        decreases edge - cy,
    {
        let mut cx: u32 = 0;
        while cx < edge
            invariant
                res == resolution,
                edge == res - 1,
                is_buildable(res),
                res * res <= u32::MAX,
                0 <= cy < edge,
                0 <= cx <= edge,
                indices.len() == 6 * (cy * edge + cx),
                forall|j: int|
                    0 <= j < indices.len() ==> indices[j] as int == #[trigger] triangle_index(
                        res,
                        j,
                    ),
            decreases edge - cx,
        {
            assert(cx + cy * res + res + 1 <= res * res - 1) by (nonlinear_arith)
                requires
                    0 <= cx <= res - 2,
                    0 <= cy <= res - 2,
            ;
            let i: u32 = cx + cy * resolution;
            let ghost start = indices.len() as int;
            proof {
                lemma_triangle_index_at(res, cx as int, cy as int, 0);
                lemma_triangle_index_at(res, cx as int, cy as int, 1);
                lemma_triangle_index_at(res, cx as int, cy as int, 2);
                lemma_triangle_index_at(res, cx as int, cy as int, 3);
                lemma_triangle_index_at(res, cx as int, cy as int, 4);
                lemma_triangle_index_at(res, cx as int, cy as int, 5);
            }
            indices.push(i);
            indices.push(i + resolution + 1);
            indices.push(i + resolution);
            indices.push(i);
            indices.push(i + 1);
            indices.push(i + resolution + 1);
            assert forall|j: int| 0 <= j < indices.len() implies indices[j] as int
                == #[trigger] triangle_index(res, j) by {
                if j >= start {
                    assert(j == 6 * (cy * edge + cx) + (j - start));
                }
            }
            cx = cx + 1;
        }
        assert((cy + 1) * edge == cy * edge + edge) by (nonlinear_arith);
        cy = cy + 1;
    }
    indices
}

/// The topology of one face: its samples and its triangle index list.
#[derive(Clone, Debug)]
pub struct FaceGrid {
    pub points: Vec<GridPoint>,
    pub triangles: Vec<u32>,
}

impl FaceGrid {
    /// Whether this is the grid of a face with `resolution` samples per edge.
    pub open spec fn is_grid_of(&self, resolution: int) -> bool {
        &&& self.points.len() == vertex_count(resolution)
        &&& forall|i: int|
            0 <= i < self.points.len() ==> (self.points[i].x as int, self.points[i].y as int)
                == #[trigger] grid_point_at(resolution, i)
        &&& self.triangles.len() == index_count(resolution)
        &&& forall|j: int|
            0 <= j < self.triangles.len() ==> self.triangles[j] as int
                == #[trigger] triangle_index(resolution, j)
    }
}

/// The grid of a face with `resolution` samples per edge, or the reason it
/// cannot be built.
pub fn face_grid(resolution: u32) -> (r: Result<FaceGrid, PlanetError>)
    ensures
        r is Ok <==> is_buildable(resolution as int),
        r is Ok ==> r->Ok_0.is_grid_of(resolution as int),
        r == Err::<FaceGrid, PlanetError>(PlanetError::InvalidConfig) <==> resolution < 2,
        r == Err::<FaceGrid, PlanetError>(PlanetError::BuildFailed) <==> (resolution >= 2
            && !is_buildable(resolution as int)),
{
    match check_resolution(resolution) {
        Err(e) => Err(e),
        Ok(()) => Ok(FaceGrid { points: grid_points(resolution), triangles: grid_triangles(resolution) }),
    }
}

/// The grid of a face is determined by its resolution: two grids of the same
/// resolution hold the same samples and the same triangle indices.
pub proof fn lemma_face_grid_deterministic(resolution: int, g1: FaceGrid, g2: FaceGrid)
    requires
        g1.is_grid_of(resolution),
        g2.is_grid_of(resolution),
    ensures
        g1.points@ == g2.points@,
        g1.triangles@ == g2.triangles@,
{
    assert forall|i: int| 0 <= i < g1.points.len() implies g1.points[i] == g2.points[i] by {
        assert((g1.points[i].x as int, g1.points[i].y as int) == grid_point_at(resolution, i));
        assert((g2.points[i].x as int, g2.points[i].y as int) == grid_point_at(resolution, i));
    }
    assert forall|j: int| 0 <= j < g1.triangles.len() implies g1.triangles[j]
        == g2.triangles[j] by {
        assert(g1.triangles[j] as int == triangle_index(resolution, j));
        assert(g2.triangles[j] as int == triangle_index(resolution, j));
    }
    assert(g1.points@ =~= g2.points@);
    assert(g1.triangles@ =~= g2.triangles@);
}

} // verus!
