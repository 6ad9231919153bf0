use vstd::prelude::*;

use crate::geometry::{
    center_model, coordinates, hex_built_from, hex_corner_model, hex_mid_model, translate_model,
    Attractor, EvenqCoordinate, Hexagon, Kind, Point, PointModel, CORNER, INTERNAL, MID,
};

verus! {

/// Why a mesh could not be constructed.
#[derive(Clone, Copy, Debug, PartialEq, Eq, Structural)]
pub enum MeshError {
    /// The grid would need more vertices than a 16-bit line index can
    /// address, so construction is rejected rather than letting indices
    /// wrap.
    IndexOverflow,
}

/// The assembler's output: five parallel buffers in one shared vertex index
/// space. `points`, `attractors` and `kinds` always have equal lengths;
/// `lines` holds index pairs and `triangles` index triples into `points`.
#[derive(Debug, PartialEq)]
pub struct Mesh {
    pub points: Vec<Point>,
    pub lines: Vec<u16>,
    pub triangles: Vec<u32>,
    pub attractors: Vec<Attractor>,
    pub kinds: Vec<Kind>,
}

impl Mesh {
    /// The number of vertices in the point buffer.
    pub fn points_len(&self) -> (r: usize)
        ensures
            r == self.points@.len(),
    {
        self.points.len()
    }

    /// The number of components per point: x and y.
    pub fn point_dim(&self) -> (r: usize)
        ensures
            r == 2,
    {
        2
    }

    /// The point buffer itself.
    pub fn points(&self) -> (r: &Vec<Point>)
        ensures
            r@ == self.points@,
    {
        &self.points
    }

    /// The number of entries in the line index list; two consecutive
    /// entries form one segment.
    pub fn lines_len(&self) -> (r: usize)
        ensures
            r == self.lines@.len(),
    {
        self.lines.len()
    }

    /// The number of components per line entry: one vertex index.
    pub fn line_dim(&self) -> (r: usize)
        ensures
            r == 1,
    {
        1
    }

    /// The line index list itself.
    pub fn lines(&self) -> (r: &Vec<u16>)
        ensures
            r@ == self.lines@,
    {
        &self.lines
    }

    /// The number of entries in the triangle index list; three consecutive
    /// entries form one triangle.
    pub fn triangles_len(&self) -> (r: usize)
        ensures
            r == self.triangles@.len(),
    {
        self.triangles.len()
    }

    /// The number of components per triangle entry: one vertex index.
    pub fn triangle_dim(&self) -> (r: usize)
        ensures
            r == 1,
    {
        1
    }

    /// The triangle index list itself.
    pub fn triangles(&self) -> (r: &Vec<u32>)
        ensures
            r@ == self.triangles@,
    {
        &self.triangles
    }

    /// The number of entries in the attractor buffer; always equal to the
    /// number of points.
    pub fn attractors_len(&self) -> (r: usize)
        ensures
            r == self.attractors@.len(),
    {
        self.attractors.len()
    }

    /// The number of components per attractor: x and y.
    pub fn attractor_dim(&self) -> (r: usize)
        ensures
            r == 2,
    {
        2
    }

    /// The attractor buffer itself.
    pub fn attractors(&self) -> (r: &Vec<Attractor>)
        ensures
            r@ == self.attractors@,
    {
        &self.attractors
    }

    /// The number of entries in the kind buffer; always equal to the
    /// number of points.
    pub fn kinds_len(&self) -> (r: usize)
        ensures
            r == self.kinds@.len(),
    {
        self.kinds.len()
    }

    /// The number of components per kind: one tag.
    pub fn kind_dim(&self) -> (r: usize)
        ensures
            r == 1,
    {
        1
    }

    /// The kind buffer itself.
    pub fn kinds(&self) -> (r: &Vec<Kind>)
        ensures
            r@ == self.kinds@,
    {
        &self.kinds
    }
}

/// The position of vertex slot `k` (of 25) in one hexagon's vertex block:
/// the center, the six internal corner copies, the twelve edge-midpoint
/// copies, then the six boundary corners.
pub open spec fn hex_slot_point(hex: Hexagon, k: int) -> PointModel {
    if k == 0 {
        hex.center@
    } else if k < 7 {
        hex.corners@[k - 1]@
    } else if k < 19 {
        hex.midpoints@[k - 7]@
    } else {
        hex.corners@[k - 19]@
    }
}

/// The attractor of vertex slot `k`: the center for the center vertex and
/// the internal corners, one of the two adjacent corners for each midpoint
/// copy (alternating), and the center again — present but ignored by the
/// morph — for the boundary corners.
pub open spec fn hex_slot_attractor(hex: Hexagon, k: int) -> PointModel {
    if k < 7 {
        hex.center@
    } else if k < 19 {
        let j = k - 7;
        if j % 2 == 0 {
            hex.corners@[j / 2]@
        } else {
            hex.corners@[(j / 2 + 1) % 6]@
        }
    } else {
        hex.center@
    }
}

/// The kind tag of vertex slot `k`.
pub open spec fn kind_slot(k: int) -> int {
    if k < 7 {
        INTERNAL as int
    } else if k < 19 {
        MID as int
    } else {
        CORNER as int
    }
}

/// Entry `e` (of 24) of one hexagon's line index list, for a vertex block
/// starting at `b`: for each of the six sectors, the segment from an
/// internal corner to one midpoint copy and from the next internal corner
/// to the other copy of the same edge's midpoint.
pub open spec fn line_slot(b: int, e: int) -> int {
    let i = e / 4;
    if e % 4 == 0 {
        b + 1 + i
    } else if e % 4 == 1 {
        b + 7 + (2 * i + 1) % 12
    } else if e % 4 == 2 {
        b + 1 + (i + 1) % 6
    } else {
        b + 7 + 2 * i
    }
}

/// Entry `e` (of 36) of one hexagon's triangle index list, for a vertex
/// block starting at `b`: for each of the six sectors, the triangle
/// internal corner / midpoint copy / boundary corner, and its counterpart
/// based on the next corner.
pub open spec fn triangle_slot(b: int, e: int) -> int {
    let i = e / 6;
    if e % 6 == 0 {
        b + 1 + i
    } else if e % 6 == 1 {
        b + 7 + (2 * i + 1) % 12
    } else if e % 6 == 2 {
        b + 19 + i
    } else if e % 6 == 3 {
        b + 1 + (i + 1) % 6
    } else if e % 6 == 4 {
        b + 7 + 2 * i
    } else {
        b + 19 + (i + 1) % 6
    }
}

/// For a block of `d` entries per unit, position `d * q + r` with
/// `0 <= r < d` decomposes back into quotient `q` and remainder `r`.
pub(crate) proof fn lemma_block_index(d: int, q: int, r: int)
    requires
        1 <= d,
        0 <= q,
        0 <= r < d,
    ensures
        (d * q + r) / d == q,
        (d * q + r) % d == r,
{
    vstd::arithmetic::mul::lemma_mul_is_commutative(d, q);
    vstd::arithmetic::div_mod::lemma_fundamental_div_mod_converse(d * q + r, d, q, r);
}

/// The position of vertex slot `k` for a hexagon around center `c`,
/// expressed purely over the center's value.
pub open spec fn slot_point_model(c: PointModel, k: int) -> PointModel {
    if k == 0 {
        c
    } else if k < 7 {
        hex_corner_model(c, k - 1)
    } else if k < 19 {
        hex_mid_model(c, k - 7)
    } else {
        hex_corner_model(c, k - 19)
    }
}

/// The attractor of vertex slot `k` for a hexagon around center `c`,
/// expressed purely over the center's value.
pub open spec fn slot_attractor_model(c: PointModel, k: int) -> PointModel {
    if k < 7 {
        c
    } else if k < 19 {
        let j = k - 7;
        if j % 2 == 0 {
            hex_corner_model(c, j / 2)
        } else {
            hex_corner_model(c, (j / 2 + 1) % 6)
        }
    } else {
        c
    }
}

/// A hexagon whose fields were built around center `c` fills its vertex
/// block exactly as the center-based slot models say.
proof fn lemma_hex_slots(hex: Hexagon, c: PointModel)
    requires
        hex_built_from(hex, c),
    ensures
        forall|k: int| 0 <= k < 25 ==> #[trigger] hex_slot_point(hex, k) == slot_point_model(c, k),
        forall|k: int|
            0 <= k < 25 ==> #[trigger] hex_slot_attractor(hex, k) == slot_attractor_model(c, k),
{
    assert forall|k: int| 0 <= k < 25 implies #[trigger] hex_slot_point(hex, k)
        == slot_point_model(c, k) by {
        if 1 <= k < 7 {
            assert(hex.corners@[k - 1]@ == hex_corner_model(c, k - 1));
        } else if 7 <= k < 19 {
            assert(hex.midpoints@[k - 7]@ == hex_mid_model(c, k - 7));
        } else if 19 <= k {
            assert(hex.corners@[k - 19]@ == hex_corner_model(c, k - 19));
        }
    }
    assert forall|k: int| 0 <= k < 25 implies #[trigger] hex_slot_attractor(hex, k)
        == slot_attractor_model(c, k) by {
        if 7 <= k < 19 {
            let j = k - 7;
            assert(0 <= j / 2 < 6);
            assert(0 <= (j / 2 + 1) % 6 < 6);
            assert(hex.corners@[j / 2]@ == hex_corner_model(c, j / 2));
            assert(hex.corners@[(j / 2 + 1) % 6]@ == hex_corner_model(c, (j / 2 + 1) % 6));
        }
    }
}

/// The recentered center of the mesh's hexagon number `h`: the cell center
/// for row `h / columns` and column `h % columns`, shifted by the grid
/// centering offset `(dx, dy)`.
pub open spec fn mesh_center_model(columns: int, dx: int, dy: int, h: int) -> PointModel {
    translate_model(center_model(h / columns, h % columns), dx, dy)
}

/// The value of entry `i` of the mesh's point buffer.
pub open spec fn mesh_point_model(columns: int, dx: int, dy: int, i: int) -> PointModel {
    slot_point_model(mesh_center_model(columns, dx, dy, i / 25), i % 25)
}

/// The value of entry `i` of the mesh's attractor buffer.
pub open spec fn mesh_attractor_model(columns: int, dx: int, dy: int, i: int) -> PointModel {
    slot_attractor_model(mesh_center_model(columns, dx, dy, i / 25), i % 25)
}

/// The kind tag of entry `i` of the mesh's kind buffer.
pub open spec fn mesh_kind_model(i: int) -> int {
    kind_slot(i % 25)
}

/// The value of entry `j` of the mesh's line index list.
pub open spec fn mesh_line_model(j: int) -> int {
    line_slot(25 * (j / 24), j % 24)
}

/// The value of entry `j` of the mesh's triangle index list.
pub open spec fn mesh_triangle_model(j: int) -> int {
    triangle_slot(25 * (j / 36), j % 36)
}

/// Whether `m` is exactly the mesh of a `rows` by `columns` grid centered
/// with offset `(dx, dy)`: all five buffers have their prescribed lengths
/// and every entry its prescribed value.
pub open spec fn mesh_matches(m: Mesh, rows: int, columns: int, dx: int, dy: int) -> bool {
    &&& m.points@.len() == 25 * rows * columns
    &&& m.attractors@.len() == 25 * rows * columns
    &&& m.kinds@.len() == 25 * rows * columns
    &&& m.lines@.len() == 24 * rows * columns
    &&& m.triangles@.len() == 36 * rows * columns
    &&& forall|i: int|
        0 <= i < m.points@.len() ==> (#[trigger] m.points@[i])@ == mesh_point_model(
            columns,
            dx,
            dy,
            i,
        )
    &&& forall|i: int|
        0 <= i < m.attractors@.len() ==> (#[trigger] m.attractors@[i])@
            == mesh_attractor_model(columns, dx, dy, i)
    &&& forall|i: int|
        0 <= i < m.kinds@.len() ==> (#[trigger] m.kinds@[i]).kind == mesh_kind_model(i)
    &&& forall|j: int|
        0 <= j < m.lines@.len() ==> (#[trigger] m.lines@[j]) as int == mesh_line_model(j)
    &&& forall|j: int|
        0 <= j < m.triangles@.len() ==> (#[trigger] m.triangles@[j]) as int
            == mesh_triangle_model(j)
}

impl Hexagon {
    /// Appends this hexagon's 25-vertex block to the parallel buffers, and
    /// its line and triangle indices, all expressed against the global
    /// vertex index space.
    #[verifier::loop_isolation(false)]
    fn add_to_mesh(
        self,
        points: &mut Vec<Point>,
        lines: &mut Vec<u16>,
        triangles: &mut Vec<u32>,
        kinds: &mut Vec<Kind>,
        attractors: &mut Vec<Attractor>,
    )
        requires
            old(points)@.len() + 25 <= 65536,
        ensures
            final(points)@.len() == old(points)@.len() + 25,
            final(kinds)@.len() == old(kinds)@.len() + 25,
            final(attractors)@.len() == old(attractors)@.len() + 25,
            final(lines)@.len() == old(lines)@.len() + 24,
            final(triangles)@.len() == old(triangles)@.len() + 36,
            forall|n: int| 0 <= n < old(points)@.len() ==> final(points)@[n] == old(points)@[n],
            forall|n: int| 0 <= n < old(kinds)@.len() ==> final(kinds)@[n] == old(kinds)@[n],
            forall|n: int|
                0 <= n < old(attractors)@.len() ==> final(attractors)@[n] == old(attractors)@[n],
            forall|n: int| 0 <= n < old(lines)@.len() ==> final(lines)@[n] == old(lines)@[n],
            forall|n: int|
                0 <= n < old(triangles)@.len() ==> final(triangles)@[n] == old(triangles)@[n],
            forall|k: int|
                0 <= k < 25 ==> (#[trigger] final(points)@[old(points)@.len() + k])@
                    == hex_slot_point(self, k),
            forall|k: int|
                0 <= k < 25 ==> (#[trigger] final(kinds)@[old(kinds)@.len() + k]).kind
                    == kind_slot(k),
            forall|k: int|
                0 <= k < 25 ==> (#[trigger] final(attractors)@[old(attractors)@.len() + k])@
                    == hex_slot_attractor(self, k),
            forall|e: int|
                0 <= e < 24 ==> (#[trigger] final(lines)@[old(lines)@.len() + e]) as int
                    == line_slot(old(points)@.len() as int, e),
            forall|e: int|
                0 <= e < 36 ==> (#[trigger] final(triangles)@[old(triangles)@.len() + e]) as int
                    == triangle_slot(old(points)@.len() as int, e),
    {
        let ghost p0 = points@;
        let ghost l0 = lines@;
        let ghost t0 = triangles@;
        let ghost k0 = kinds@;
        let ghost a0 = attractors@;

        points.push(self.center);
        // The center's attractor and kind are unused by the morph, but the
        // buffers must stay parallel, one entry per vertex.
        attractors.push(Attractor::from(self.center));
        kinds.push(Kind { kind: INTERNAL });

        let internals_idx = points.len();
        for i in 0..6
            invariant
                points@.len() == p0.len() + 1 + i,
                kinds@.len() == k0.len() + 1 + i,
                attractors@.len() == a0.len() + 1 + i,
                lines@ == l0,
                triangles@ == t0,
                forall|n: int| 0 <= n < p0.len() ==> points@[n] == p0[n],
                forall|n: int| 0 <= n < k0.len() ==> kinds@[n] == k0[n],
                forall|n: int| 0 <= n < a0.len() ==> attractors@[n] == a0[n],
                forall|k: int|
                    0 <= k < 1 + i ==> (#[trigger] points@[p0.len() + k])@
                        == hex_slot_point(self, k),
                forall|k: int|
                    0 <= k < 1 + i ==> (#[trigger] kinds@[k0.len() + k]).kind == kind_slot(k),
                forall|k: int|
                    0 <= k < 1 + i ==> (#[trigger] attractors@[a0.len() + k])@
                        == hex_slot_attractor(self, k),
        {
            points.push(self.corners[i]);
            kinds.push(Kind { kind: INTERNAL });
            attractors.push(Attractor::from(self.center));
        }

        let midpoints_idx = points.len();
        for i in 0..12
            invariant
                points@.len() == p0.len() + 7 + i,
                kinds@.len() == k0.len() + 7 + i,
                attractors@.len() == a0.len() + 7,
                lines@ == l0,
                triangles@ == t0,
                forall|n: int| 0 <= n < p0.len() ==> points@[n] == p0[n],
                forall|n: int| 0 <= n < k0.len() ==> kinds@[n] == k0[n],
                forall|n: int| 0 <= n < a0.len() ==> attractors@[n] == a0[n],
                forall|k: int|
                    0 <= k < 7 + i ==> (#[trigger] points@[p0.len() + k])@
                        == hex_slot_point(self, k),
                forall|k: int|
                    0 <= k < 7 + i ==> (#[trigger] kinds@[k0.len() + k]).kind == kind_slot(k),
                forall|k: int|
                    0 <= k < 7 ==> (#[trigger] attractors@[a0.len() + k])@
                        == hex_slot_attractor(self, k),
        {
            points.push(self.midpoints[i]);
            kinds.push(Kind { kind: MID });
        }
        for i in 0..6
            invariant
                points@.len() == p0.len() + 19,
                kinds@.len() == k0.len() + 19,
                attractors@.len() == a0.len() + 7 + 2 * i,
                lines@ == l0,
                triangles@ == t0,
                forall|n: int| 0 <= n < p0.len() ==> points@[n] == p0[n],
                forall|n: int| 0 <= n < k0.len() ==> kinds@[n] == k0[n],
                forall|n: int| 0 <= n < a0.len() ==> attractors@[n] == a0[n],
                forall|k: int|
                    0 <= k < 19 ==> (#[trigger] points@[p0.len() + k])@ == hex_slot_point(self, k),
                forall|k: int|
                    0 <= k < 19 ==> (#[trigger] kinds@[k0.len() + k]).kind == kind_slot(k),
                forall|k: int|
                    0 <= k < 7 + 2 * i ==> (#[trigger] attractors@[a0.len() + k])@
                        == hex_slot_attractor(self, k),
        {
            attractors.push(Attractor::from(self.corners[i]));
            attractors.push(Attractor::from(self.corners[(i + 1) % 6]));
            proof {
                lemma_block_index(2, i as int, 0);
                lemma_block_index(2, i as int, 1);
            }
        }

        let corners_idx = points.len();
        for i in 0..6
            invariant
                points@.len() == p0.len() + 19 + i,
                kinds@.len() == k0.len() + 19 + i,
                attractors@.len() == a0.len() + 19 + i,
                lines@ == l0,
                triangles@ == t0,
                forall|n: int| 0 <= n < p0.len() ==> points@[n] == p0[n],
                forall|n: int| 0 <= n < k0.len() ==> kinds@[n] == k0[n],
                forall|n: int| 0 <= n < a0.len() ==> attractors@[n] == a0[n],
                forall|k: int|
                    0 <= k < 19 + i ==> (#[trigger] points@[p0.len() + k])@
                        == hex_slot_point(self, k),
                forall|k: int|
                    0 <= k < 19 + i ==> (#[trigger] kinds@[k0.len() + k]).kind == kind_slot(k),
                forall|k: int|
                    0 <= k < 19 + i ==> (#[trigger] attractors@[a0.len() + k])@
                        == hex_slot_attractor(self, k),
        {
            points.push(self.corners[i]);
            kinds.push(Kind { kind: CORNER });
            // The attractor is ignored for fixed corners; the center keeps
            // the buffer parallel.
            attractors.push(Attractor::from(self.center));
        }

        for i in 0..6
            invariant
                points@.len() == p0.len() + 25,
                kinds@.len() == k0.len() + 25,
                attractors@.len() == a0.len() + 25,
                lines@.len() == l0.len() + 4 * i,
                triangles@.len() == t0.len() + 6 * i,
                forall|n: int| 0 <= n < p0.len() ==> points@[n] == p0[n],
                forall|n: int| 0 <= n < k0.len() ==> kinds@[n] == k0[n],
                forall|n: int| 0 <= n < a0.len() ==> attractors@[n] == a0[n],
                forall|n: int| 0 <= n < l0.len() ==> lines@[n] == l0[n],
                forall|n: int| 0 <= n < t0.len() ==> triangles@[n] == t0[n],
                forall|k: int|
                    0 <= k < 25 ==> (#[trigger] points@[p0.len() + k])@ == hex_slot_point(self, k),
                forall|k: int|
                    0 <= k < 25 ==> (#[trigger] kinds@[k0.len() + k]).kind == kind_slot(k),
                forall|k: int|
                    0 <= k < 25 ==> (#[trigger] attractors@[a0.len() + k])@
                        == hex_slot_attractor(self, k),
                forall|e: int|
                    0 <= e < 4 * i ==> (#[trigger] lines@[l0.len() + e]) as int
                        == line_slot(p0.len() as int, e),
                forall|e: int|
                    0 <= e < 6 * i ==> (#[trigger] triangles@[t0.len() + e]) as int
                        == triangle_slot(p0.len() as int, e),
        {
            // Internal corner to the second copy of its leading edge midpoint.
            lines.push((internals_idx + i) as u16);
            lines.push((midpoints_idx + (i * 2 + 1) % 12) as u16);

            // Next internal corner to the first copy of the same midpoint.
            lines.push((internals_idx + (i + 1) % 6) as u16);
            lines.push((midpoints_idx + i * 2) as u16);

            // Internal corner, midpoint copy, boundary corner.
            triangles.push((internals_idx + i) as u32);
            triangles.push((midpoints_idx + (i * 2 + 1) % 12) as u32);
            triangles.push((corners_idx + i) as u32);

            // Next internal corner, other midpoint copy, next boundary corner.
            triangles.push((internals_idx + (i + 1) % 6) as u32);
            triangles.push((midpoints_idx + i * 2) as u32);
            triangles.push((corners_idx + (i + 1) % 6) as u32);

            proof {
                lemma_block_index(4, i as int, 0);
                lemma_block_index(4, i as int, 1);
                lemma_block_index(4, i as int, 2);
                lemma_block_index(4, i as int, 3);
                lemma_block_index(6, i as int, 0);
                lemma_block_index(6, i as int, 1);
                lemma_block_index(6, i as int, 2);
                lemma_block_index(6, i as int, 3);
                lemma_block_index(6, i as int, 4);
                lemma_block_index(6, i as int, 5);
            }
        }
    }
}

/// One hexagon per grid cell, in row-major order of `coordinates`, built
/// around the unshifted cell centers.
pub fn hexagons(rows: usize, columns: usize) -> (r: Vec<Hexagon>)
    requires
        rows <= 0x0400_0000_0000_0000,
        columns <= 0x0400_0000_0000_0000,
    ensures
        r@.len() == rows * columns,
        forall|h: int|
            0 <= h < r@.len() ==> hex_built_from(
                #[trigger] r@[h],
                center_model(h / (columns as int), h % (columns as int)),
            ),
{
    let coords = coordinates(rows, columns);
    let mut v: Vec<Hexagon> = Vec::new();
    let n = coords.len();
    #[verifier::loop_isolation(false)]
    for idx in 0..n
        invariant
            v@.len() == idx,
            forall|h: int|
                0 <= h < v@.len() ==> hex_built_from(
                    #[trigger] v@[h],
                    center_model(h / (columns as int), h % (columns as int)),
                ),
    {
        let coord = coords[idx];
        let center = coord.center();
        v.push(Hexagon::new(center));
    }
    v
}

/// The mesh of a `rows` by `columns` grid of hexagons of edge `size`,
/// recentered by an explicit grid-centering offset `(dx, dy)` in absolute
/// units.
///
/// Each hexagon contributes an independent block of 25 vertices (center,
/// six internal corners, twelve midpoint copies, six boundary corners) to
/// the parallel buffers, 24 line indices and 36 triangle indices. A grid
/// whose vertex count would exceed what the 16-bit line indices can address
/// is rejected; an empty grid yields empty buffers.
pub fn mesh_with_offset(rows: usize, columns: usize, dx: i64, dy: i64) -> (r: Result<
    Mesh,
    MeshError,
>)
    requires
        -0x2000_0000_0000_0000 <= dx <= 0x2000_0000_0000_0000,
        -0x2000_0000_0000_0000 <= dy <= 0x2000_0000_0000_0000,
    ensures
        match r {
            Ok(m) => {
                &&& 25 * rows * columns <= 65536
                &&& mesh_matches(m, rows as int, columns as int, dx as int, dy as int)
            },
            Err(e) => {
                &&& e == MeshError::IndexOverflow
                &&& 25 * rows * columns > 65536
            },
        },
{
    proof {
        vstd::arithmetic::mul::lemma_mul_is_associative(25, rows as int, columns as int);
    }
    let total: u64 = match (rows as u64).checked_mul(columns as u64) {
        Some(t) => t,
        None => {
            return Err(MeshError::IndexOverflow);
        },
    };
    if total > 2621 {
        return Err(MeshError::IndexOverflow);
    }

    let mut points: Vec<Point> = Vec::new();
    let mut lines: Vec<u16> = Vec::new();
    let mut triangles: Vec<u32> = Vec::new();
    let mut attractors: Vec<Attractor> = Vec::new();
    let mut kinds: Vec<Kind> = Vec::new();

    proof {
        vstd::arithmetic::mul::lemma_mul_basics(columns as int);
    }

    #[verifier::loop_isolation(false)]
    for row in 0..rows
        invariant
            points@.len() == 25 * (row * columns),
            attractors@.len() == 25 * (row * columns),
            kinds@.len() == 25 * (row * columns),
            lines@.len() == 24 * (row * columns),
            triangles@.len() == 36 * (row * columns),
            forall|i: int|
                0 <= i < points@.len() ==> (#[trigger] points@[i])@
                    == mesh_point_model(columns as int, dx as int, dy as int, i),
            forall|i: int|
                0 <= i < attractors@.len() ==> (#[trigger] attractors@[i])@
                    == mesh_attractor_model(columns as int, dx as int, dy as int, i),
            forall|i: int|
                0 <= i < kinds@.len() ==> (#[trigger] kinds@[i]).kind == mesh_kind_model(i),
            forall|j: int|
                0 <= j < lines@.len() ==> (#[trigger] lines@[j]) as int == mesh_line_model(j),
            forall|j: int|
                0 <= j < triangles@.len() ==> (#[trigger] triangles@[j]) as int
                    == mesh_triangle_model(j),
    {
        #[verifier::loop_isolation(false)]
        for col in 0..columns
            invariant
                points@.len() == 25 * (row * columns + col),
                attractors@.len() == 25 * (row * columns + col),
                kinds@.len() == 25 * (row * columns + col),
                lines@.len() == 24 * (row * columns + col),
                triangles@.len() == 36 * (row * columns + col),
                forall|i: int|
                    0 <= i < points@.len() ==> (#[trigger] points@[i])@
                        == mesh_point_model(columns as int, dx as int, dy as int, i),
                forall|i: int|
                    0 <= i < attractors@.len() ==> (#[trigger] attractors@[i])@
                        == mesh_attractor_model(columns as int, dx as int, dy as int, i),
                forall|i: int|
                    0 <= i < kinds@.len() ==> (#[trigger] kinds@[i]).kind == mesh_kind_model(i),
                forall|j: int|
                    0 <= j < lines@.len() ==> (#[trigger] lines@[j]) as int == mesh_line_model(j),
                forall|j: int|
                    0 <= j < triangles@.len() ==> (#[trigger] triangles@[j]) as int
                        == mesh_triangle_model(j),
        {
            let ghost h = row as int * columns as int + col as int;
            proof {
                vstd::arithmetic::mul::lemma_mul_inequality(1, columns as int, rows as int);
                vstd::arithmetic::mul::lemma_mul_is_commutative(columns as int, rows as int);
                vstd::arithmetic::mul::lemma_mul_inequality(1, rows as int, columns as int);
                vstd::arithmetic::mul::lemma_mul_inequality(
                    row as int + 1,
                    rows as int,
                    columns as int,
                );
                vstd::arithmetic::mul::lemma_mul_is_distributive_add_other_way(
                    columns as int,
                    row as int,
                    1,
                );
                assert(h + 1 <= total);
            }

            let coord = EvenqCoordinate { x: row, y: col };
            let center = coord.center().translate(dx, dy);
            let hex = Hexagon::new(center);

            let ghost p_len = points@.len() as int;
            hex.add_to_mesh(&mut points, &mut lines, &mut triangles, &mut kinds, &mut attractors);

            proof {
                vstd::arithmetic::mul::lemma_mul_is_commutative(row as int, columns as int);
                lemma_block_index(columns as int, row as int, col as int);
                assert(h / (columns as int) == row as int);
                assert(h % (columns as int) == col as int);
                assert(hex_built_from(hex, mesh_center_model(columns as int, dx as int, dy as int, h)));
                lemma_hex_slots(hex, mesh_center_model(columns as int, dx as int, dy as int, h));

                assert forall|i: int| 25 * h <= i < 25 * h + 25 implies (#[trigger] points@[i])@
                    == mesh_point_model(columns as int, dx as int, dy as int, i) by {
                    let k = i - 25 * h;
                    lemma_block_index(25, h, k);
                    assert((points@[25 * h + k])@ == hex_slot_point(hex, k));
                }
                assert forall|i: int| 25 * h <= i < 25 * h + 25 implies (#[trigger] attractors@[i])@ == mesh_attractor_model(columns as int, dx as int, dy as int, i) by {
                    let k = i - 25 * h;
                    lemma_block_index(25, h, k);
                    assert((attractors@[25 * h + k])@ == hex_slot_attractor(hex, k));
                }
                assert forall|i: int| 25 * h <= i < 25 * h + 25 implies (#[trigger] kinds@[i]).kind == mesh_kind_model(i) by {
                    let k = i - 25 * h;
                    lemma_block_index(25, h, k);
                    assert((kinds@[25 * h + k]).kind == kind_slot(k));
                }
                assert forall|j: int| 24 * h <= j < 24 * h + 24 implies (#[trigger] lines@[j]) as int == mesh_line_model(j) by {
                    let e = j - 24 * h;
                    lemma_block_index(24, h, e);
                    assert((lines@[24 * h + e]) as int == line_slot(25 * h, e));
                }
                assert forall|j: int| 36 * h <= j < 36 * h + 36 implies (#[trigger] triangles@[j]) as int == mesh_triangle_model(j) by {
                    let e = j - 36 * h;
                    lemma_block_index(36, h, e);
                    assert((triangles@[36 * h + e]) as int == triangle_slot(25 * h, e));
                }
            }
        }
        proof {
            vstd::arithmetic::mul::lemma_mul_is_distributive_add_other_way(
                columns as int,
                row as int,
                1,
            );
        }
    }
    proof {
        vstd::arithmetic::mul::lemma_mul_is_associative(25, rows as int, columns as int);
        vstd::arithmetic::mul::lemma_mul_is_associative(24, rows as int, columns as int);
        vstd::arithmetic::mul::lemma_mul_is_associative(36, rows as int, columns as int);
    }
    Ok(Mesh { points, lines, triangles, attractors, kinds })
}

/// The mesh of a `rows` by `columns` grid with the observed grid-centering
/// offset `(-1, -1)`, which places a grid spanning `[0, 2]` in a `[-1, 1]`
/// normalized device space.
pub fn mesh(rows: usize, columns: usize) -> (r: Result<Mesh, MeshError>)
    ensures
        match r {
            Ok(m) => {
                &&& 25 * rows * columns <= 65536
                &&& mesh_matches(m, rows as int, columns as int, -1, -1)
            },
            Err(e) => {
                &&& e == MeshError::IndexOverflow
                &&& 25 * rows * columns > 65536
            },
        },
{
    mesh_with_offset(rows, columns, -1, -1)
}

} // verus!
