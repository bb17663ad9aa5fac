//! The ground surface and the height sampler that anchors blades on it.

use crate::units::{GRID_RESOLUTION, ONE};
use vstd::prelude::*;

verus! {

/// A point of a mesh or a translation, in fixed-point steps.
#[derive(Clone, Copy, Debug, PartialEq, Eq, Structural)]
pub struct Point3 {
    pub x: i32,
    pub y: i32,
    pub z: i32,
}

/// An axis-aligned bounding box given by its centre and its half extents.
#[derive(Clone, Copy, Debug, PartialEq, Eq, Structural)]
pub struct Aabb {
    pub center: Point3,
    pub half_x: u32,
    pub half_y: u32,
    pub half_z: u32,
}

/// A candidate closer than this to the query ends the scan at once.
pub const EARLY_EXIT_EPSILON: u32 = ONE;

/// Manhattan distance in the horizontal plane between a vertex and a query.
pub open spec fn manhattan(v: Point3, qx: int, qz: int) -> int {
    (if v.x >= qx { v.x - qx } else { qx - v.x })
    + (if v.z >= qz { v.z - qz } else { qz - v.z })
}

/// Whether vertex `i` is the one whose height the sampler reports.
///
/// The scan walks the vertices in order and keeps the closest one seen so far,
/// the earlier one on a tie. It stops at the first vertex closer than
/// [`EARLY_EXIT_EPSILON`], so a later vertex that is closer still is never
/// looked at.
pub open spec fn is_sample_index(positions: Seq<Point3>, qx: int, qz: int, i: int) -> bool {
    &&& 0 <= i < positions.len()
    &&& forall|j: int|
        0 <= j < i ==> {
            &&& #[trigger] manhattan(positions[j], qx, qz) >= EARLY_EXIT_EPSILON
            &&& manhattan(positions[j], qx, qz) > manhattan(positions[i], qx, qz)
        }
    &&& (manhattan(positions[i], qx, qz) < EARLY_EXIT_EPSILON || forall|j: int|
        i < j < positions.len() ==> #[trigger] manhattan(positions[j], qx, qz) >= manhattan(
            positions[i],
            qx,
            qz,
        ))
}

/// The height the sampler reports: that of the sampled vertex, or 0 for a
/// mesh without vertices.
pub open spec fn sampled_height(positions: Seq<Point3>, qx: int, qz: int) -> int {
    if positions.len() == 0 {
        0
    } else {
        positions[choose|i: int| is_sample_index(positions, qx, qz, i)].y as int
    }
}

/// At most one vertex is the sampled one.
pub proof fn lemma_sample_index_unique(positions: Seq<Point3>, qx: int, qz: int, i: int, k: int)
    requires
        is_sample_index(positions, qx, qz, i),
        is_sample_index(positions, qx, qz, k),
    ensures
        i == k,
{
}

fn manhattan_distance(v: &Point3, qx: i64, qz: i64) -> (d: i128)
    ensures
        d == manhattan(*v, qx as int, qz as int),
{
    let vx: i128 = v.x as i128;
    let vz: i128 = v.z as i128;
    let dx: i128 = if vx >= qx as i128 { vx - qx as i128 } else { qx as i128 - vx };
    let dz: i128 = if vz >= qz as i128 { vz - qz as i128 } else { qz as i128 - vz };
    dx + dz
}

/// Finds the vertex whose height stands for the ground at `(qx, qz)`.
pub fn sample_index(positions: &Vec<Point3>, qx: i64, qz: i64) -> (found: Option<usize>)
    ensures
        positions@.len() == 0 <==> found is None,
        found matches Some(i) ==> is_sample_index(positions@, qx as int, qz as int, i as int),
{
    let n: usize = positions.len();
    if n == 0 {
        return None;
    }
    let mut best: usize = 0;
    let mut best_d: i128 = manhattan_distance(&positions[0], qx, qz);
    if best_d < EARLY_EXIT_EPSILON as i128 {
        return Some(0);
    }
    let mut i: usize = 1;
    while i < n
        invariant
            n == positions@.len(),
            1 <= i <= n,
            best < i,
            best_d == manhattan(positions@[best as int], qx as int, qz as int),
            forall|j: int|
                0 <= j < i ==> #[trigger] manhattan(positions@[j], qx as int, qz as int)
                    >= EARLY_EXIT_EPSILON,
            forall|j: int|
                0 <= j < best ==> #[trigger] manhattan(positions@[j], qx as int, qz as int)
                    > best_d,
            forall|j: int|
                best <= j < i ==> #[trigger] manhattan(positions@[j], qx as int, qz as int)
                    >= best_d,
        decreases n - i,
    {
        let d: i128 = manhattan_distance(&positions[i], qx, qz);
        if d < best_d {
            best = i;
            best_d = d;
            if d < EARLY_EXIT_EPSILON as i128 {
                return Some(i);
            }
        }
        i += 1;
    }
    Some(best)
}

/// Samples the ground height at `(qx, qz)`: a linear scan for the vertex of
/// least Manhattan distance that stops early at the first vertex within
/// [`EARLY_EXIT_EPSILON`]. A mesh without vertices gives 0.
pub fn sample_height(positions: &Vec<Point3>, qx: i64, qz: i64) -> (y: i32)
    ensures
        y == sampled_height(positions@, qx as int, qz as int),
{
    match sample_index(positions, qx, qz) {
        Some(i) => {
            proof {
                let k = choose|k: int| is_sample_index(positions@, qx as int, qz as int, k);
                lemma_sample_index_unique(positions@, qx as int, qz as int, i as int, k);
            }
            positions[i].y
        },
        None => 0,
    }
}

/// Every mesh with at least one vertex has a sampled vertex.
pub proof fn lemma_sample_index_exists(positions: Seq<Point3>, qx: int, qz: int)
    requires
        positions.len() > 0,
    ensures
        exists|i: int| is_sample_index(positions, qx, qz, i),
{
    let _ = lemma_scan_prefix(positions, qx, qz, positions.len() as int);
    assert(positions.subrange(0, positions.len() as int) =~= positions);
}

proof fn lemma_scan_prefix(positions: Seq<Point3>, qx: int, qz: int, n: int) -> (i: int)
    requires
        1 <= n <= positions.len(),
    ensures
        is_sample_index(positions.subrange(0, n), qx, qz, i),
    decreases n,
{
    let now = positions.subrange(0, n);
    if n == 1 {
        0
    } else {
        let before = positions.subrange(0, n - 1);
        let p = lemma_scan_prefix(positions, qx, qz, n - 1);
        assert forall|j: int| 0 <= j < n - 1 implies before[j] == now[j] by {}
        let candidate = if manhattan(before[p], qx, qz) >= EARLY_EXIT_EPSILON && manhattan(
            now[n - 1],
            qx,
            qz,
        ) < manhattan(before[p], qx, qz) {
            n - 1
        } else {
            p
        };
        assert forall|j: int| 0 <= j < candidate implies {
            &&& #[trigger] manhattan(now[j], qx, qz) >= EARLY_EXIT_EPSILON
            &&& manhattan(now[j], qx, qz) > manhattan(now[candidate], qx, qz)
        } by {}
        candidate
    }
}

/// The sampler reports the height of a vertex within [`EARLY_EXIT_EPSILON`]
/// of the query whenever the mesh has one, and otherwise the height of a
/// vertex of least Manhattan distance.
pub proof fn lemma_sampled_height_is_near_or_closest(positions: Seq<Point3>, qx: int, qz: int)
    requires
        positions.len() > 0,
    ensures
        (exists|j: int|
            0 <= j < positions.len() && manhattan(positions[j], qx, qz) < EARLY_EXIT_EPSILON)
            ==> exists|i: int|
            0 <= i < positions.len() && manhattan(positions[i], qx, qz) < EARLY_EXIT_EPSILON
                && sampled_height(positions, qx, qz) == positions[i].y,
        (forall|j: int|
            0 <= j < positions.len() ==> manhattan(positions[j], qx, qz) >= EARLY_EXIT_EPSILON)
            ==> exists|i: int|
            0 <= i < positions.len() && sampled_height(positions, qx, qz) == positions[i].y
                && forall|j: int|
                0 <= j < positions.len() ==> manhattan(positions[i], qx, qz) <= #[trigger] manhattan(
                    positions[j],
                    qx,
                    qz,
                ),
{
    lemma_sample_index_exists(positions, qx, qz);
    let i = choose|i: int| is_sample_index(positions, qx, qz, i);
    if forall|j: int|
        0 <= j < positions.len() ==> manhattan(positions[j], qx, qz) >= EARLY_EXIT_EPSILON {
        assert forall|j: int| 0 <= j < positions.len() implies manhattan(positions[i], qx, qz)
            <= #[trigger] manhattan(positions[j], qx, qz) by {}
    }
}

/// A ground region: where it stands, how far it reaches, and the vertex
/// positions of its mesh. The sampler only ever reads it.
pub struct GroundSurface {
    pub translation: Point3,
    pub bounding_box: Aabb,
    /// `None` when the mesh is absent or carries no position attribute.
    pub mesh_vertex_positions: Option<Vec<Point3>>,
}

impl GroundSurface {
    /// The vertex positions the sampler scans; none for a missing mesh.
    pub open spec fn positions(&self) -> Seq<Point3> {
        match self.mesh_vertex_positions {
            Some(v) => v@,
            None => Seq::empty(),
        }
    }

    /// World units (in fixed-point steps) that one grid cell spans on an axis
    /// whose bounding box has half extent `half`.
    pub open spec fn axis_scale(half: u32) -> int {
        (2 * half) / (GRID_RESOLUTION as int)
    }

    /// Height of the surface at `(qx, qz)`; 0 when there is no mesh to ask.
    pub fn height_at(&self, qx: i64, qz: i64) -> (y: i32)
        ensures
            y == sampled_height(self.positions(), qx as int, qz as int),
            self.mesh_vertex_positions is None ==> y == 0,
    {
        match &self.mesh_vertex_positions {
            Some(v) => sample_height(v, qx, qz),
            None => 0,
        }
    }

    /// Per-axis scale from grid cells to world steps: the bounding box's
    /// full extent along x and z, spread over [`GRID_RESOLUTION`] cells.
    pub fn grid_scale(&self) -> (scale: (u32, u32))
        ensures
            scale.0 == Self::axis_scale(self.bounding_box.half_x),
            scale.1 == Self::axis_scale(self.bounding_box.half_z),
    {
        let sx: u64 = (2 * (self.bounding_box.half_x as u64)) / (GRID_RESOLUTION as u64);
        let sz: u64 = (2 * (self.bounding_box.half_z as u64)) / (GRID_RESOLUTION as u64);
        (sx as u32, sz as u32)
    }
}

} // verus!
