use vstd::prelude::*;

use crate::geometry::{hex_corner_model, hex_mid_model, PointModel, CORNER, MID};
use crate::mesh::{
    kind_slot, lemma_block_index, line_slot, mesh_attractor_model, mesh_kind_model,
    mesh_line_model, mesh_matches, mesh_point_model, mesh_triangle_model, triangle_slot, Mesh,
};

verus! {

/// The rational part of the squared distance between two points: the
/// squared distance is `(rational + radical * sqrt(3)) / 16 * size^2`
/// whenever the two points' absolute offsets agree.
pub open spec fn dist_sq_rational(p: PointModel, q: PointModel) -> int {
    let dxl = p.x.lin - q.x.lin;
    let dxr = p.x.rad - q.x.rad;
    let dyl = p.y.lin - q.y.lin;
    let dyr = p.y.rad - q.y.rad;
    dxl * dxl + 3 * (dxr * dxr) + dyl * dyl + 3 * (dyr * dyr)
}

/// The `sqrt(3)` part of the squared distance between two points.
pub open spec fn dist_sq_radical(p: PointModel, q: PointModel) -> int {
    let dxl = p.x.lin - q.x.lin;
    let dxr = p.x.rad - q.x.rad;
    let dyl = p.y.lin - q.y.lin;
    let dyr = p.y.rad - q.y.rad;
    2 * (dxl * dxr + dyl * dyr)
}

/// Whether two points differ only in `size`-scaled terms, so that their
/// distance is a pure multiple of `size`.
pub open spec fn same_offsets(p: PointModel, q: PointModel) -> bool {
    p.x.off == q.x.off && p.y.off == q.y.off
}

/// Multiplication respects known values of its operands.
proof fn lemma_mul_value(a: int, b: int, va: int, vb: int)
    requires
        a == va,
        b == vb,
    ensures
        a * b == va * vb,
{
}

/// The squared distance between two points, evaluated from the known
/// componentwise differences.
proof fn lemma_dist_sq_eval(p: PointModel, q: PointModel, dxl: int, dxr: int, dyl: int, dyr: int)
    requires
        p.x.lin - q.x.lin == dxl,
        p.x.rad - q.x.rad == dxr,
        p.y.lin - q.y.lin == dyl,
        p.y.rad - q.y.rad == dyr,
    ensures
        dist_sq_rational(p, q) == dxl * dxl + 3 * (dxr * dxr) + dyl * dyl + 3 * (dyr * dyr),
        dist_sq_radical(p, q) == 2 * (dxl * dxr + dyl * dyr),
{
    lemma_mul_value(p.x.lin - q.x.lin, p.x.lin - q.x.lin, dxl, dxl);
    lemma_mul_value(p.x.rad - q.x.rad, p.x.rad - q.x.rad, dxr, dxr);
    lemma_mul_value(p.y.lin - q.y.lin, p.y.lin - q.y.lin, dyl, dyl);
    lemma_mul_value(p.y.rad - q.y.rad, p.y.rad - q.y.rad, dyr, dyr);
    lemma_mul_value(p.x.lin - q.x.lin, p.x.rad - q.x.rad, dxl, dxr);
    lemma_mul_value(p.y.lin - q.y.lin, p.y.rad - q.y.rad, dyl, dyr);
}

/// Every corner of a hexagon lies at Euclidean distance exactly `size`
/// from the hexagon's center: the squared distance is `16/16 * size^2`,
/// with no `sqrt(3)` cross term left over.
#[verifier::spinoff_prover]
#[verifier::rlimit(60)]
pub proof fn lemma_corner_at_edge_distance(c: PointModel, i: int)
    requires
        0 <= i < 6,
    ensures
        same_offsets(hex_corner_model(c, i), c),
        dist_sq_rational(hex_corner_model(c, i), c) == 16,
        dist_sq_radical(hex_corner_model(c, i), c) == 0,
{
    let p = hex_corner_model(c, i);
    if i == 0 {
        lemma_dist_sq_eval(p, c, 4, 0, 0, 0);
        assert(dist_sq_rational(p, c) == 16);
        assert(dist_sq_radical(p, c) == 0);
    } else if i == 1 {
        lemma_dist_sq_eval(p, c, 2, 0, 0, 2);
        assert(dist_sq_rational(p, c) == 16);
        assert(dist_sq_radical(p, c) == 0);
    } else if i == 2 {
        lemma_dist_sq_eval(p, c, -2, 0, 0, 2);
        assert(dist_sq_rational(p, c) == 16);
        assert(dist_sq_radical(p, c) == 0);
    } else if i == 3 {
        lemma_dist_sq_eval(p, c, -4, 0, 0, 0);
        assert(dist_sq_rational(p, c) == 16);
        assert(dist_sq_radical(p, c) == 0);
    } else if i == 4 {
        lemma_dist_sq_eval(p, c, -2, 0, 0, -2);
        assert(dist_sq_rational(p, c) == 16);
        assert(dist_sq_radical(p, c) == 0);
    } else {
        lemma_dist_sq_eval(p, c, 2, 0, 0, -2);
        assert(dist_sq_rational(p, c) == 16);
        assert(dist_sq_radical(p, c) == 0);
    }
}

/// The parallel-buffer law: for every valid grid, the point, attractor and
/// kind buffers all hold exactly `rows * columns * 25` entries.
pub proof fn lemma_parallel_lengths(m: Mesh, rows: int, columns: int, dx: int, dy: int)
    requires
        mesh_matches(m, rows, columns, dx, dy),
    ensures
        m.points@.len() == 25 * rows * columns,
        m.attractors@.len() == m.points@.len(),
        m.kinds@.len() == m.points@.len(),
{
}

/// A grid with no rows or no columns yields a mesh whose five buffers are
/// all empty.
pub proof fn lemma_empty_grid(m: Mesh, rows: int, columns: int, dx: int, dy: int)
    requires
        mesh_matches(m, rows, columns, dx, dy),
        rows == 0 || columns == 0,
    ensures
        m.points@.len() == 0,
        m.attractors@.len() == 0,
        m.kinds@.len() == 0,
        m.lines@.len() == 0,
        m.triangles@.len() == 0,
{
    vstd::arithmetic::mul::lemma_mul_basics(25 * rows);
    vstd::arithmetic::mul::lemma_mul_basics(24 * rows);
    vstd::arithmetic::mul::lemma_mul_basics(36 * rows);
    vstd::arithmetic::mul::lemma_mul_basics(columns);
}

/// Mesh generation is deterministic: two meshes of the same grid hold
/// identical buffers, entry for entry.
pub proof fn lemma_mesh_deterministic(m1: Mesh, m2: Mesh, rows: int, columns: int, dx: int, dy: int)
    requires
        mesh_matches(m1, rows, columns, dx, dy),
        mesh_matches(m2, rows, columns, dx, dy),
    ensures
        m1.points@ == m2.points@,
        m1.lines@ == m2.lines@,
        m1.triangles@ == m2.triangles@,
        m1.attractors@ == m2.attractors@,
        m1.kinds@ == m2.kinds@,
{
    broadcast use vstd::array::axiom_array_ext_equal;

    assert forall|i: int| 0 <= i < m1.points@.len() implies m1.points@[i] == m2.points@[i] by {
        assert(m1.points@[i]@ == mesh_point_model(columns, dx, dy, i));
        assert(m2.points@[i]@ == mesh_point_model(columns, dx, dy, i));
    }
    assert(m1.points@ =~= m2.points@);
    assert forall|i: int| 0 <= i < m1.attractors@.len() implies m1.attractors@[i]
        == m2.attractors@[i] by {
        assert(m1.attractors@[i]@ == mesh_attractor_model(columns, dx, dy, i));
        assert(m2.attractors@[i]@ == mesh_attractor_model(columns, dx, dy, i));
        let a1 = m1.attractors@[i].attractor;
        let a2 = m2.attractors@[i].attractor;
        assert(a1@[0]@ == a2@[0]@);
        assert(a1@[1]@ == a2@[1]@);
        assert(a1@[0] == a2@[0]);
        assert(a1@[1] == a2@[1]);
        assert forall|n: int| 0 <= n < 2 implies a1[n] == a2[n] by {
            if n == 0 {
                assert(a1[0] == a2[0]);
            } else {
                assert(a1[1] == a2[1]);
            }
        }
        assert(a1 =~= a2);
    }
    assert(m1.attractors@ =~= m2.attractors@);
    assert forall|i: int| 0 <= i < m1.kinds@.len() implies m1.kinds@[i] == m2.kinds@[i] by {
        assert(m1.kinds@[i].kind == mesh_kind_model(i));
        assert(m2.kinds@[i].kind == mesh_kind_model(i));
    }
    assert(m1.kinds@ =~= m2.kinds@);
    assert forall|j: int| 0 <= j < m1.lines@.len() implies m1.lines@[j] == m2.lines@[j] by {
        assert(m1.lines@[j] as int == mesh_line_model(j));
        assert(m2.lines@[j] as int == mesh_line_model(j));
    }
    assert(m1.lines@ =~= m2.lines@);
    assert forall|j: int| 0 <= j < m1.triangles@.len() implies m1.triangles@[j]
        == m2.triangles@[j] by {
        assert(m1.triangles@[j] as int == mesh_triangle_model(j));
        assert(m2.triangles@[j] as int == mesh_triangle_model(j));
    }
    assert(m1.triangles@ =~= m2.triangles@);
}

/// The index-soundness law: every entry of the line and triangle index
/// lists addresses an existing vertex of the point buffer.
pub proof fn lemma_indices_in_range(m: Mesh, rows: int, columns: int, dx: int, dy: int)
    requires
        mesh_matches(m, rows, columns, dx, dy),
        0 <= rows,
        0 <= columns,
    ensures
        forall|j: int| 0 <= j < m.lines@.len() ==> (#[trigger] m.lines@[j]) < m.points@.len(),
        forall|j: int|
            0 <= j < m.triangles@.len() ==> (#[trigger] m.triangles@[j]) < m.points@.len(),
{
    let n = rows * columns;
    vstd::arithmetic::mul::lemma_mul_is_associative(25, rows, columns);
    vstd::arithmetic::mul::lemma_mul_is_associative(24, rows, columns);
    vstd::arithmetic::mul::lemma_mul_is_associative(36, rows, columns);
    assert forall|j: int| 0 <= j < m.lines@.len() implies (#[trigger] m.lines@[j])
        < m.points@.len() by {
        assert(m.lines@[j] as int == mesh_line_model(j));
        let h = j / 24;
        let e = j % 24;
        vstd::arithmetic::div_mod::lemma_div_is_ordered(j, 24 * n - 1, 24);
        lemma_block_index(24, n - 1, 23);
        assert(0 <= h <= n - 1);
        assert(0 <= e < 24);
        assert(0 <= e / 4 <= 5);
        assert(line_slot(25 * h, e) < 25 * h + 25);
    }
    assert forall|j: int| 0 <= j < m.triangles@.len() implies (#[trigger] m.triangles@[j])
        < m.points@.len() by {
        assert(m.triangles@[j] as int == mesh_triangle_model(j));
        let h = j / 36;
        let e = j % 36;
        vstd::arithmetic::div_mod::lemma_div_is_ordered(j, 36 * n - 1, 36);
        lemma_block_index(36, n - 1, 35);
        assert(0 <= h <= n - 1);
        assert(0 <= e < 36);
        assert(0 <= e / 6 <= 5);
        assert(triangle_slot(25 * h, e) < 25 * h + 25);
    }
}

/// Twice each coordinate of the midpoint of edge `j / 2` equals the sum of
/// the corresponding coordinates of the edge's two corners: the midpoint
/// is their exact arithmetic mean.
pub proof fn lemma_mid_of_corners(c: PointModel, j: int)
    requires
        0 <= j < 12,
    ensures
        ({
            let e = j / 2;
            let mid = hex_mid_model(c, j);
            let a = hex_corner_model(c, e);
            let b = hex_corner_model(c, (e + 1) % 6);
            &&& 2 * mid.x.lin == a.x.lin + b.x.lin
            &&& 2 * mid.x.rad == a.x.rad + b.x.rad
            &&& 2 * mid.x.off == a.x.off + b.x.off
            &&& 2 * mid.y.lin == a.y.lin + b.y.lin
            &&& 2 * mid.y.rad == a.y.rad + b.y.rad
            &&& 2 * mid.y.off == a.y.off + b.y.off
        }),
{
    let e = j / 2;
    assert(0 <= e < 6);
}

/// The boundary-corner law: every vertex tagged CORNER lies at Euclidean
/// distance exactly `size` from its hexagon's center vertex. Together with
/// `morph::lemma_corner_ignores_coefficients` — the morph never moves a
/// CORNER vertex — the distance holds independently of the coefficients.
pub proof fn lemma_boundary_corner_distance(
    m: Mesh,
    rows: int,
    columns: int,
    dx: int,
    dy: int,
    h: int,
    j: int,
)
    requires
        mesh_matches(m, rows, columns, dx, dy),
        0 <= rows,
        0 <= columns,
        0 <= h < rows * columns,
        0 <= j < 6,
    ensures
        ({
            let c = m.points@[25 * h]@;
            let p = m.points@[25 * h + 19 + j]@;
            &&& m.kinds@[25 * h + 19 + j].kind == CORNER
            &&& same_offsets(p, c)
            &&& dist_sq_rational(p, c) == 16
            &&& dist_sq_radical(p, c) == 0
        }),
{
    vstd::arithmetic::mul::lemma_mul_is_associative(25, rows, columns);
    lemma_block_index(25, h, 0);
    lemma_block_index(25, h, 19 + j);
    let center = crate::mesh::mesh_center_model(columns, dx, dy, h);
    assert(m.points@[25 * h]@ == mesh_point_model(columns, dx, dy, 25 * h));
    assert(m.points@[25 * h + 19 + j]@ == mesh_point_model(columns, dx, dy, 25 * h + 19 + j));
    assert(m.kinds@[25 * h + 19 + j].kind == kind_slot(19 + j));
    assert(mesh_point_model(columns, dx, dy, 25 * h) == center);
    assert(mesh_point_model(columns, dx, dy, 25 * h + 19 + j) == hex_corner_model(center, j));
    lemma_corner_at_edge_distance(center, j);
}

/// The midpoint law for whole meshes: every vertex tagged MID is the exact
/// arithmetic mean of its two defining corners, which sit in the same
/// hexagon's internal-corner ring.
pub proof fn lemma_mid_vertex_is_mean(
    m: Mesh,
    rows: int,
    columns: int,
    dx: int,
    dy: int,
    h: int,
    j: int,
)
    requires
        mesh_matches(m, rows, columns, dx, dy),
        0 <= rows,
        0 <= columns,
        0 <= h < rows * columns,
        0 <= j < 12,
    ensures
        ({
            let mid = m.points@[25 * h + 7 + j]@;
            let a = m.points@[25 * h + 1 + j / 2]@;
            let b = m.points@[25 * h + 1 + (j / 2 + 1) % 6]@;
            &&& m.kinds@[25 * h + 7 + j].kind == MID
            &&& 2 * mid.x.lin == a.x.lin + b.x.lin
            &&& 2 * mid.x.rad == a.x.rad + b.x.rad
            &&& 2 * mid.x.off == a.x.off + b.x.off
            &&& 2 * mid.y.lin == a.y.lin + b.y.lin
            &&& 2 * mid.y.rad == a.y.rad + b.y.rad
            &&& 2 * mid.y.off == a.y.off + b.y.off
        }),
{
    vstd::arithmetic::mul::lemma_mul_is_associative(25, rows, columns);
    let e = j / 2;
    assert(0 <= e < 6);
    lemma_block_index(25, h, 7 + j);
    lemma_block_index(25, h, 1 + e);
    lemma_block_index(25, h, 1 + (e + 1) % 6);
    let center = crate::mesh::mesh_center_model(columns, dx, dy, h);
    assert(m.points@[25 * h + 7 + j]@ == mesh_point_model(columns, dx, dy, 25 * h + 7 + j));
    assert(m.points@[25 * h + 1 + e]@ == mesh_point_model(columns, dx, dy, 25 * h + 1 + e));
    assert(m.points@[25 * h + 1 + (e + 1) % 6]@ == mesh_point_model(
        columns,
        dx,
        dy,
        25 * h + 1 + (e + 1) % 6,
    ));
    assert(m.kinds@[25 * h + 7 + j].kind == kind_slot(7 + j));
    assert(mesh_point_model(columns, dx, dy, 25 * h + 7 + j) == hex_mid_model(center, j));
    assert(mesh_point_model(columns, dx, dy, 25 * h + 1 + e) == hex_corner_model(center, e));
    assert(mesh_point_model(columns, dx, dy, 25 * h + 1 + (e + 1) % 6) == hex_corner_model(
        center,
        (e + 1) % 6,
    ));
    lemma_mid_of_corners(center, j);
}

} // verus!
