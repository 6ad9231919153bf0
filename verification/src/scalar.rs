use vstd::prelude::*;

verus! {

/// One exact coordinate value on the hexagonal grid.
///
/// A scalar stands for the real number
/// `(lin + rad * sqrt(3)) / 4 * size + off`, where `size` is the hexagon
/// edge length. Every coordinate the grid produces — cell centers, hexagon
/// corners, edge midpoints, and the recentering shift — is exactly
/// representable in this form, so the whole mesh can be generated and
/// reasoned about without any rounding.
#[derive(Clone, Copy, Debug, PartialEq, Eq)]
pub struct Scalar {
    /// Coefficient of `size`, in quarter units.
    pub lin: i64,
    /// Coefficient of `size * sqrt(3)`, in quarter units.
    pub rad: i64,
    /// Offset in absolute units, independent of `size`.
    pub off: i64,
}

/// The mathematical value of a scalar: the same three coefficients as
/// unbounded integers.
pub struct ScalarModel {
    pub lin: int,
    pub rad: int,
    pub off: int,
}

impl View for Scalar {
    type V = ScalarModel;

    open spec fn view(&self) -> ScalarModel {
        ScalarModel { lin: self.lin as int, rad: self.rad as int, off: self.off as int }
    }
}

/// The componentwise difference of two scalar values; the displacement
/// from `q` to `p`.
pub open spec fn diff_model(p: ScalarModel, q: ScalarModel) -> ScalarModel {
    ScalarModel { lin: p.lin - q.lin, rad: p.rad - q.rad, off: p.off - q.off }
}

impl Scalar {
    /// The componentwise sum of two scalars.
    pub fn add(self, rhs: Scalar) -> (r: Scalar)
        requires
            i64::MIN <= self.lin + rhs.lin <= i64::MAX,
            i64::MIN <= self.rad + rhs.rad <= i64::MAX,
            i64::MIN <= self.off + rhs.off <= i64::MAX,
        ensures
            r@.lin == self@.lin + rhs@.lin,
            r@.rad == self@.rad + rhs@.rad,
            r@.off == self@.off + rhs@.off,
    {
        Scalar { lin: self.lin + rhs.lin, rad: self.rad + rhs.rad, off: self.off + rhs.off }
    }

    /// The exact arithmetic mean of two scalars. It exists in the grid's
    /// representation only when every componentwise sum is even; the sums of
    /// adjacent hexagon corners always are.
    pub fn midpoint(self, rhs: Scalar) -> (r: Scalar)
        requires
            i64::MIN <= self.lin + rhs.lin <= i64::MAX,
            i64::MIN <= self.rad + rhs.rad <= i64::MAX,
            i64::MIN <= self.off + rhs.off <= i64::MAX,
            (self.lin + rhs.lin) % 2 == 0,
            (self.rad + rhs.rad) % 2 == 0,
            (self.off + rhs.off) % 2 == 0,
        ensures
            2 * r@.lin == self@.lin + rhs@.lin,
            2 * r@.rad == self@.rad + rhs@.rad,
            2 * r@.off == self@.off + rhs@.off,
    {
        Scalar {
            lin: (self.lin + rhs.lin) / 2,
            rad: (self.rad + rhs.rad) / 2,
            off: (self.off + rhs.off) / 2,
        }
    }

    /// The scalar shifted by a whole number of absolute units.
    pub fn shifted(self, d: i64) -> (r: Scalar)
        requires
            i64::MIN <= self.off + d <= i64::MAX,
        ensures
            r@ == (ScalarModel { lin: self@.lin, rad: self@.rad, off: self@.off + d }),
    {
        Scalar { lin: self.lin, rad: self.rad, off: self.off + d }
    }
}

} // verus!
