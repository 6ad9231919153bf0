use vstd::prelude::*;

use crate::scalar::{Scalar, ScalarModel};

verus! {

/// The mathematical value of a 2D position: one exact scalar per axis.
pub struct PointModel {
    pub x: ScalarModel,
    pub y: ScalarModel,
}

/// A 2D position with exact coordinates.
#[derive(Clone, Copy, Debug, PartialEq, Eq)]
pub struct Point {
    pub x: Scalar,
    pub y: Scalar,
}

impl View for Point {
    type V = PointModel;

    open spec fn view(&self) -> PointModel {
        PointModel { x: self.x@, y: self.y@ }
    }
}

/// A point translated by a whole number of absolute units on each axis.
pub open spec fn translate_model(p: PointModel, dx: int, dy: int) -> PointModel {
    PointModel {
        x: ScalarModel { lin: p.x.lin, rad: p.x.rad, off: p.x.off + dx },
        y: ScalarModel { lin: p.y.lin, rad: p.y.rad, off: p.y.off + dy },
    }
}

/// Whether the arithmetic mean of two points is exactly representable:
/// every componentwise sum fits in `i64` and is even.
pub open spec fn point_mid_ok(p: PointModel, q: PointModel) -> bool {
    &&& i64::MIN <= p.x.lin + q.x.lin <= i64::MAX
    &&& i64::MIN <= p.x.rad + q.x.rad <= i64::MAX
    &&& i64::MIN <= p.x.off + q.x.off <= i64::MAX
    &&& i64::MIN <= p.y.lin + q.y.lin <= i64::MAX
    &&& i64::MIN <= p.y.rad + q.y.rad <= i64::MAX
    &&& i64::MIN <= p.y.off + q.y.off <= i64::MAX
    &&& (p.x.lin + q.x.lin) % 2 == 0
    &&& (p.x.rad + q.x.rad) % 2 == 0
    &&& (p.x.off + q.x.off) % 2 == 0
    &&& (p.y.lin + q.y.lin) % 2 == 0
    &&& (p.y.rad + q.y.rad) % 2 == 0
    &&& (p.y.off + q.y.off) % 2 == 0
}

impl Point {
    /// The exact arithmetic mean of two points. Exact representability asks
    /// that every componentwise sum be even, which holds for all pairs of
    /// corners of one hexagon.
    pub fn midpoint(&self, rhs: &Point) -> (r: Point)
        requires
            point_mid_ok(self@, rhs@),
        ensures
            2 * r@.x.lin == self@.x.lin + rhs@.x.lin,
            2 * r@.x.rad == self@.x.rad + rhs@.x.rad,
            2 * r@.x.off == self@.x.off + rhs@.x.off,
            2 * r@.y.lin == self@.y.lin + rhs@.y.lin,
            2 * r@.y.rad == self@.y.rad + rhs@.y.rad,
            2 * r@.y.off == self@.y.off + rhs@.y.off,
    {
        Point { x: self.x.midpoint(rhs.x), y: self.y.midpoint(rhs.y) }
    }

    /// The point translated by whole absolute units on each axis; used to
    /// recenter the finished grid around the origin.
    pub fn translate(self, dx: i64, dy: i64) -> (r: Point)
        requires
            i64::MIN <= self.x.off + dx <= i64::MAX,
            i64::MIN <= self.y.off + dy <= i64::MAX,
        ensures
            r@ == translate_model(self@, dx as int, dy as int),
    {
        Point { x: self.x.shifted(dx), y: self.y.shifted(dy) }
    }
}

/// The position a vertex is pulled toward by the morph; stored one per
/// vertex, parallel to the vertex positions.
#[derive(Clone, Copy, Debug, PartialEq, Eq)]
pub struct Attractor {
    pub attractor: [Scalar; 2],
}

impl View for Attractor {
    type V = PointModel;

    open spec fn view(&self) -> PointModel {
        PointModel { x: self.attractor@[0]@, y: self.attractor@[1]@ }
    }
}

impl Attractor {
    /// The attractor's target position as a point.
    pub fn to_point(&self) -> (r: Point)
        ensures
            r@ == self@,
    {
        Point { x: self.attractor[0], y: self.attractor[1] }
    }
}

impl From<Point> for Attractor {
    fn from(p: Point) -> (r: Attractor) {
        Attractor { attractor: [p.x, p.y] }
    }
}

impl vstd::std_specs::convert::FromSpecImpl<Point> for Attractor {
    open spec fn obeys_from_spec() -> bool {
        true
    }

    open spec fn from_spec(p: Point) -> Attractor {
        Attractor { attractor: [p.x, p.y] }
    }
}

/// The per-vertex tag selecting which morph coefficient applies.
#[derive(Clone, Copy, Debug, PartialEq, Eq, Structural)]
pub struct Kind {
    pub kind: u32,
}

/// Tag of a corner copy that is pulled toward the hexagon center; governed
/// by coefficient `b`.
pub const INTERNAL: u32 = 0;

/// Tag of the midpoint of a hexagon edge, pulled toward one of its adjacent
/// corners; governed by coefficient `a`.
pub const MID: u32 = 1;

/// Tag of a fixed corner of the hexagon; its attractor is ignored by the
/// morph.
pub const CORNER: u32 = 2;

/// A grid cell address in the even-column-offset hexagonal layout.
#[derive(Clone, Copy, Debug, PartialEq, Eq, Structural)]
pub struct EvenqCoordinate {
    pub x: usize,
    pub y: usize,
}

/// The exact center of the cell at `(cx, cy)`:
/// `x = size * 3/2 * cx` and `y = size * sqrt(3) * (cy - 1/2 * (cx % 2))`,
/// written in quarter units of `size` and `size * sqrt(3)`.
pub open spec fn center_model(cx: int, cy: int) -> PointModel {
    PointModel {
        x: ScalarModel { lin: 6 * cx, rad: 0, off: 0 },
        y: ScalarModel { lin: 0, rad: 4 * cy - 2 * (cx % 2), off: 0 },
    }
}

impl EvenqCoordinate {
    /// The center of this cell on the plane.
    pub fn center(&self) -> (r: Point)
        requires
            self.x <= 0x0400_0000_0000_0000,
            self.y <= 0x0400_0000_0000_0000,
        ensures
            r@ == center_model(self.x as int, self.y as int),
    {
        let parity: i64 = (self.x % 2) as i64;
        Point {
            x: Scalar { lin: 6 * (self.x as i64), rad: 0, off: 0 },
            y: Scalar { lin: 0, rad: 4 * (self.y as i64) - 2 * parity, off: 0 },
        }
    }
}

/// Whether a scalar is far enough from the `i64` range ends that building a
/// hexagon around it (corner offsets of at most four quarter units, and the
/// mean of two corners) stays exactly representable.
pub open spec fn scalar_in_build_range(s: ScalarModel) -> bool {
    &&& -0x2000_0000_0000_0000 <= s.lin <= 0x2000_0000_0000_0000
    &&& -0x2000_0000_0000_0000 <= s.rad <= 0x2000_0000_0000_0000
    &&& -0x2000_0000_0000_0000 <= s.off <= 0x2000_0000_0000_0000
}

/// Whether a point can serve as the center of a hexagon without any
/// coordinate arithmetic leaving the `i64` range.
pub open spec fn point_in_build_range(p: PointModel) -> bool {
    scalar_in_build_range(p.x) && scalar_in_build_range(p.y)
}

/// The x offset, in quarter units of `size`, from a hexagon center to
/// corner `i`: `4 * cos(60 degrees * i)`.
pub open spec fn corner_dx(i: int) -> int {
    if i == 0 {
        4
    } else if i == 1 {
        2
    } else if i == 2 {
        -2
    } else if i == 3 {
        -4
    } else if i == 4 {
        -2
    } else {
        2
    }
}

/// The y offset, in quarter units of `size * sqrt(3)`, from a hexagon
/// center to corner `i`: `4 * sin(60 degrees * i) / sqrt(3)`.
pub open spec fn corner_dy(i: int) -> int {
    if i == 0 {
        0
    } else if i == 1 {
        2
    } else if i == 2 {
        2
    } else if i == 3 {
        0
    } else if i == 4 {
        -2
    } else {
        -2
    }
}

/// Corner `i` of a flat-top hexagon of edge `size` around center `c`:
/// `c + size * (cos(60 degrees * i), sin(60 degrees * i))`.
pub open spec fn hex_corner_model(c: PointModel, i: int) -> PointModel {
    PointModel {
        x: ScalarModel { lin: c.x.lin + corner_dx(i), rad: c.x.rad, off: c.x.off },
        y: ScalarModel { lin: c.y.lin, rad: c.y.rad + corner_dy(i), off: c.y.off },
    }
}

/// The midpoint of hexagon edge `i / 2` (each edge midpoint is stored twice,
/// at indices `2i` and `2i + 1`): the arithmetic mean of corners `i / 2` and
/// `(i / 2 + 1) % 6`, whose offsets from the center halve exactly.
pub open spec fn hex_mid_model(c: PointModel, i: int) -> PointModel {
    let e = i / 2;
    let dx = (corner_dx(e) + corner_dx((e + 1) % 6)) / 2;
    let dy = (corner_dy(e) + corner_dy((e + 1) % 6)) / 2;
    PointModel {
        x: ScalarModel { lin: c.x.lin + dx, rad: c.x.rad, off: c.x.off },
        y: ScalarModel { lin: c.y.lin, rad: c.y.rad + dy, off: c.y.off },
    }
}

/// Corner `i` of the flat-top hexagon of edge `size` around `center`, with
/// corner 0 due east of the center.
fn flat_hex_corner(center: Point, i: usize) -> (r: Point)
    requires
        i < 6,
        point_in_build_range(center@),
    ensures
        r@ == hex_corner_model(center@, i as int),
{
    let dx: i64 = if i == 0 {
        4
    } else if i == 1 {
        2
    } else if i == 2 {
        -2
    } else if i == 3 {
        -4
    } else if i == 4 {
        -2
    } else {
        2
    };
    let dy: i64 = if i == 0 {
        0
    } else if i == 1 {
        2
    } else if i == 2 {
        2
    } else if i == 3 {
        0
    } else if i == 4 {
        -2
    } else {
        -2
    };
    Point {
        x: Scalar { lin: center.x.lin + dx, rad: center.x.rad, off: center.x.off },
        y: Scalar { lin: center.y.lin, rad: center.y.rad + dy, off: center.y.off },
    }
}

/// One hexagonal tile: its center, its six corners, and the midpoints of
/// its six edges, each midpoint stored twice at adjacent indices so that
/// the two copies can be bound to different attractors.
pub struct Hexagon {
    pub center: Point,
    pub corners: [Point; 6],
    pub midpoints: [Point; 12],
}

/// Whether a hexagon's fields hold exactly the geometry of a hexagon of
/// edge `size` built around center `c`.
pub open spec fn hex_built_from(hex: Hexagon, c: PointModel) -> bool {
    &&& hex.center@ == c
    &&& forall|i: int| 0 <= i < 6 ==> (#[trigger] hex.corners@[i])@ == hex_corner_model(c, i)
    &&& forall|i: int| 0 <= i < 12 ==> (#[trigger] hex.midpoints@[i])@ == hex_mid_model(c, i)
}

impl Hexagon {
    /// The six corners around a center.
    fn corners(center: Point) -> (r: [Point; 6])
        requires
            point_in_build_range(center@),
        ensures
            forall|i: int| 0 <= i < 6 ==> (#[trigger] r@[i])@ == hex_corner_model(center@, i),
    {
        let r = [
            flat_hex_corner(center, 0),
            flat_hex_corner(center, 1),
            flat_hex_corner(center, 2),
            flat_hex_corner(center, 3),
            flat_hex_corner(center, 4),
            flat_hex_corner(center, 5),
        ];
        r
    }

    /// The six edge midpoints, each stored twice at adjacent indices.
    fn midpoints(center: Point, corners: &[Point; 6]) -> (r: [Point; 12])
        requires
            point_in_build_range(center@),
            forall|i: int| 0 <= i < 6 ==> (#[trigger] corners@[i])@ == hex_corner_model(center@, i),
        ensures
            forall|i: int| 0 <= i < 12 ==> (#[trigger] r@[i])@ == hex_mid_model(center@, i),
    {
        let r = [
            corners[0].midpoint(&corners[1]),
            corners[0].midpoint(&corners[1]),
            corners[1].midpoint(&corners[2]),
            corners[1].midpoint(&corners[2]),
            corners[2].midpoint(&corners[3]),
            corners[2].midpoint(&corners[3]),
            corners[3].midpoint(&corners[4]),
            corners[3].midpoint(&corners[4]),
            corners[4].midpoint(&corners[5]),
            corners[4].midpoint(&corners[5]),
            corners[5].midpoint(&corners[0]),
            corners[5].midpoint(&corners[0]),
        ];
        r
    }

    /// A hexagon of edge `size` built around `center`.
    pub fn new(center: Point) -> (r: Hexagon)
        requires
            point_in_build_range(center@),
        ensures
            hex_built_from(r, center@),
    {
        let corners = Self::corners(center);
        let midpoints = Self::midpoints(center, &corners);
        Hexagon { center, corners, midpoints }
    }
}

/// The whole grid's cell addresses, outer loop first: the outer index runs
/// over `[0, rows)` and feeds the x (column-offset) term of the center
/// formula, the inner index runs over `[0, columns)`. The role swap between
/// the loop names and the formula terms is deliberate and preserved.
pub fn coordinates(rows: usize, columns: usize) -> (r: Vec<EvenqCoordinate>)
    ensures
        r@.len() == rows * columns,
        forall|h: int|
            0 <= h < r@.len() ==> {
                &&& (#[trigger] r@[h]).x as int == h / (columns as int)
                &&& r@[h].y as int == h % (columns as int)
                &&& r@[h].x < rows
                &&& r@[h].y < columns
            },
{
    let mut v: Vec<EvenqCoordinate> = Vec::new();
    for row in 0..rows
        invariant
            v@.len() == row * columns,
            forall|h: int|
                0 <= h < v@.len() ==> {
                    &&& (#[trigger] v@[h]).x as int == h / (columns as int)
                    &&& v@[h].y as int == h % (columns as int)
                    &&& v@[h].x < rows
                    &&& v@[h].y < columns
                },
    {
        for col in 0..columns
            invariant
                row < rows,
                v@.len() == row * columns + col,
                forall|h: int|
                    0 <= h < v@.len() ==> {
                        &&& (#[trigger] v@[h]).x as int == h / (columns as int)
                        &&& v@[h].y as int == h % (columns as int)
                        &&& v@[h].x < rows
                        &&& v@[h].y < columns
                    },
        {
            v.push(EvenqCoordinate { x: row, y: col });
            proof {
                vstd::arithmetic::div_mod::lemma_fundamental_div_mod_converse(
                    row * columns + col,
                    columns as int,
                    row as int,
                    col as int,
                );
            }
        }
        proof {
            vstd::arithmetic::mul::lemma_mul_is_distributive_add_other_way(
                columns as int,
                row as int,
                1,
            );
        }
    }
    v
}

} // verus!
