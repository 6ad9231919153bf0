use vstd::prelude::*;

use crate::geometry::{Attractor, Kind, Point, PointModel, CORNER, INTERNAL};
use crate::scalar::{Scalar, ScalarModel};

verus! {

/// One externally supplied morph coefficient, held as the exact fraction
/// `num / den`.
#[derive(Clone, Copy, Debug, PartialEq, Eq, Structural)]
pub struct Coeff {
    pub num: i64,
    pub den: i64,
}

/// The mathematical value of a coefficient.
pub struct CoeffModel {
    pub num: int,
    pub den: int,
}

impl View for Coeff {
    type V = CoeffModel;

    open spec fn view(&self) -> CoeffModel {
        CoeffModel { num: self.num as int, den: self.den as int }
    }
}

/// A coefficient is well formed when its denominator is positive.
pub open spec fn coeff_wf(c: CoeffModel) -> bool {
    1 <= c.den
}

/// The coefficient a vertex's kind selects: a fixed corner always gets
/// zero, whatever `a` and `b` are; an internal corner gets `b`; a midpoint
/// gets `a`.
pub open spec fn coeff_for_kind(kind: int, a: CoeffModel, b: CoeffModel) -> CoeffModel {
    if kind == CORNER as int {
        CoeffModel { num: 0, den: 1 }
    } else if kind == INTERNAL as int {
        b
    } else {
        a
    }
}

/// A morphed vertex position: the exact value `(x / den, y / den)`.
#[derive(Clone, Copy, Debug, PartialEq, Eq)]
pub struct MorphPoint {
    pub x: Scalar,
    pub y: Scalar,
    pub den: i64,
}

/// The mathematical value of a morphed position.
pub struct MorphPointModel {
    pub x: ScalarModel,
    pub y: ScalarModel,
    pub den: int,
}

impl View for MorphPoint {
    type V = MorphPointModel;

    open spec fn view(&self) -> MorphPointModel {
        MorphPointModel { x: self.x@, y: self.y@, den: self.den as int }
    }
}

/// One coordinate of `den * (p + (num / den) * (q - p))`: the affine
/// combination `(den - num) * p + num * q`.
pub open spec fn scalar_affine(p: ScalarModel, q: ScalarModel, num: int, den: int) -> ScalarModel {
    ScalarModel {
        lin: (den - num) * p.lin + num * q.lin,
        rad: (den - num) * p.rad + num * q.rad,
        off: (den - num) * p.off + num * q.off,
    }
}

/// The morphed position of one vertex: `p + m * (q - p)`, where `m` is the
/// coefficient its kind selects, held exactly as numerators over the
/// common denominator `m.den`.
pub open spec fn morph_model(
    p: PointModel,
    q: PointModel,
    kind: int,
    a: CoeffModel,
    b: CoeffModel,
) -> MorphPointModel {
    let m = coeff_for_kind(kind, a, b);
    MorphPointModel {
        x: scalar_affine(p.x, q.x, m.num, m.den),
        y: scalar_affine(p.y, q.y, m.num, m.den),
        den: m.den,
    }
}

/// Whether the affine combination of components `pc` and `qc` under
/// `num / den` stays within `i64` at every step of its evaluation.
pub open spec fn affine_fits(pc: int, qc: int, num: int, den: int) -> bool {
    &&& i64::MIN <= den - num <= i64::MAX
    &&& i64::MIN <= (den - num) * pc <= i64::MAX
    &&& i64::MIN <= num * qc <= i64::MAX
    &&& i64::MIN <= (den - num) * pc + num * qc <= i64::MAX
}

/// `affine_fits` for all three components of one scalar pair.
pub open spec fn scalar_morph_fits(p: ScalarModel, q: ScalarModel, m: CoeffModel) -> bool {
    &&& affine_fits(p.lin, q.lin, m.num, m.den)
    &&& affine_fits(p.rad, q.rad, m.num, m.den)
    &&& affine_fits(p.off, q.off, m.num, m.den)
}

/// `affine_fits` for both coordinates of a vertex and its target.
pub open spec fn morph_fits(p: PointModel, q: PointModel, m: CoeffModel) -> bool {
    scalar_morph_fits(p.x, q.x, m) && scalar_morph_fits(p.y, q.y, m)
}

/// The coefficient a vertex's kind selects at run time.
pub fn multiplier(kind: Kind, a: Coeff, b: Coeff) -> (r: Coeff)
    ensures
        r@ == coeff_for_kind(kind.kind as int, a@, b@),
{
    if kind.kind == CORNER {
        Coeff { num: 0, den: 1 }
    } else if kind.kind == INTERNAL {
        b
    } else {
        a
    }
}

/// The affine combination `(den - num) * p + num * q` of two scalars.
fn affine_scalar(p: Scalar, q: Scalar, num: i64, den: i64) -> (r: Scalar)
    requires
        scalar_morph_fits(p@, q@, CoeffModel { num: num as int, den: den as int }),
    ensures
        r@ == scalar_affine(p@, q@, num as int, den as int),
{
    let w = den - num;
    Scalar {
        lin: w * p.lin + num * q.lin,
        rad: w * p.rad + num * q.rad,
        off: w * p.off + num * q.off,
    }
}

/// The morphed position of one vertex, computed exactly: the coefficient
/// selected by `kind` pulls `p` toward `target`.
pub fn morph_point(p: Point, target: Point, kind: Kind, a: Coeff, b: Coeff) -> (r: MorphPoint)
    requires
        coeff_wf(a@),
        coeff_wf(b@),
        morph_fits(p@, target@, coeff_for_kind(kind.kind as int, a@, b@)),
    ensures
        r@ == morph_model(p@, target@, kind.kind as int, a@, b@),
{
    let m = multiplier(kind, a, b);
    MorphPoint {
        x: affine_scalar(p.x, target.x, m.num, m.den),
        y: affine_scalar(p.y, target.y, m.num, m.den),
        den: m.den,
    }
}

/// The morph applied to whole parallel buffers, one output position per
/// vertex, as the shading stage evaluates it once per frame. The morph is
/// stateless and per-vertex: entry `i` of the result depends only on entry
/// `i` of each input buffer.
pub fn morph(
    points: &Vec<Point>,
    attractors: &Vec<Attractor>,
    kinds: &Vec<Kind>,
    a: Coeff,
    b: Coeff,
) -> (r: Vec<MorphPoint>)
    requires
        points@.len() == attractors@.len(),
        points@.len() == kinds@.len(),
        coeff_wf(a@),
        coeff_wf(b@),
        forall|i: int|
            0 <= i < points@.len() ==> morph_fits(
                points@[i]@,
                attractors@[i]@,
                coeff_for_kind((#[trigger] kinds@[i]).kind as int, a@, b@),
            ),
    ensures
        r@.len() == points@.len(),
        forall|i: int|
            0 <= i < r@.len() ==> (#[trigger] r@[i])@ == morph_model(
                points@[i]@,
                attractors@[i]@,
                kinds@[i].kind as int,
                a@,
                b@,
            ),
{
    let mut out: Vec<MorphPoint> = Vec::new();
    let n = points.len();
    #[verifier::loop_isolation(false)]
    for i in 0..n
        invariant
            out@.len() == i,
            forall|k: int|
                0 <= k < out@.len() ==> (#[trigger] out@[k])@ == morph_model(
                    points@[k]@,
                    attractors@[k]@,
                    kinds@[k].kind as int,
                    a@,
                    b@,
                ),
    {
        let target = attractors[i].to_point();
        out.push(morph_point(points[i], target, kinds[i], a, b));
    }
    out
}

/// With both coefficients zero, the morph reproduces a vertex exactly: the
/// morphed value is the original position over denominator 1, whatever the
/// kind and the attractor are.
pub proof fn lemma_morph_zero_keeps_position(p: PointModel, q: PointModel, kind: int)
    ensures
        morph_model(p, q, kind, CoeffModel { num: 0, den: 1 }, CoeffModel { num: 0, den: 1 }) == (
        MorphPointModel { x: p.x, y: p.y, den: 1 }),
{
    vstd::arithmetic::mul::lemma_mul_basics(p.x.lin);
    vstd::arithmetic::mul::lemma_mul_basics(p.x.rad);
    vstd::arithmetic::mul::lemma_mul_basics(p.x.off);
    vstd::arithmetic::mul::lemma_mul_basics(p.y.lin);
    vstd::arithmetic::mul::lemma_mul_basics(p.y.rad);
    vstd::arithmetic::mul::lemma_mul_basics(p.y.off);
    vstd::arithmetic::mul::lemma_mul_basics(q.x.lin);
    vstd::arithmetic::mul::lemma_mul_basics(q.x.rad);
    vstd::arithmetic::mul::lemma_mul_basics(q.x.off);
    vstd::arithmetic::mul::lemma_mul_basics(q.y.lin);
    vstd::arithmetic::mul::lemma_mul_basics(q.y.rad);
    vstd::arithmetic::mul::lemma_mul_basics(q.y.off);
}

/// A vertex tagged CORNER ignores the coefficients: whatever `a` and `b`
/// are, its morphed position is exactly its original position.
pub proof fn lemma_corner_ignores_coefficients(
    p: PointModel,
    q: PointModel,
    a: CoeffModel,
    b: CoeffModel,
)
    ensures
        morph_model(p, q, CORNER as int, a, b) == (MorphPointModel { x: p.x, y: p.y, den: 1 }),
{
    lemma_morph_zero_keeps_position(p, q, CORNER as int);
}

/// The whole-buffer form of the zero-coefficient law: a morph output built
/// with `a = b = 0` repeats the stored vertex positions entry for entry.
pub proof fn lemma_morph_zero_buffers(
    morphed: Seq<MorphPoint>,
    points: Seq<Point>,
    attractors: Seq<Attractor>,
    kinds: Seq<Kind>,
)
    requires
        morphed.len() == points.len(),
        forall|i: int|
            0 <= i < morphed.len() ==> (#[trigger] morphed[i])@ == morph_model(
                points[i]@,
                attractors[i]@,
                kinds[i].kind as int,
                CoeffModel { num: 0, den: 1 },
                CoeffModel { num: 0, den: 1 },
            ),
    ensures
        forall|i: int|
            0 <= i < morphed.len() ==> {
                &&& (#[trigger] morphed[i]).x == points[i].x
                &&& morphed[i].y == points[i].y
                &&& morphed[i].den == 1
            },
{
    assert forall|i: int| 0 <= i < morphed.len() implies {
        &&& (#[trigger] morphed[i]).x == points[i].x
        &&& morphed[i].y == points[i].y
        &&& morphed[i].den == 1
    } by {
        lemma_morph_zero_keeps_position(points[i]@, attractors[i]@, kinds[i].kind as int);
    }
}

} // verus!
