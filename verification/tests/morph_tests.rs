use geotoy::{mesh, morph, morph_point, multiplier, Coeff, Kind, Point, Scalar, CORNER, INTERNAL, MID};

#[test]
fn multiplier_selects_by_kind() {
    let a = Coeff { num: 1, den: 10 };
    let b = Coeff { num: 6, den: 10 };
    assert_eq!(multiplier(Kind { kind: CORNER }, a, b), Coeff { num: 0, den: 1 });
    assert_eq!(multiplier(Kind { kind: INTERNAL }, a, b), b);
    assert_eq!(multiplier(Kind { kind: MID }, a, b), a);
}

#[test]
fn zero_coefficients_reproduce_positions() {
    let m = mesh(2, 2).unwrap();
    let zero = Coeff { num: 0, den: 1 };
    let morphed = morph(&m.points, &m.attractors, &m.kinds, zero, zero);
    assert_eq!(morphed.len(), m.points.len());
    for (out, p) in morphed.iter().zip(m.points.iter()) {
        assert_eq!(out.x, p.x);
        assert_eq!(out.y, p.y);
        assert_eq!(out.den, 1);
    }
}

#[test]
fn corner_vertices_never_move() {
    let m = mesh(1, 1).unwrap();
    let a = Coeff { num: 7, den: 3 };
    let b = Coeff { num: -5, den: 2 };
    let morphed = morph(&m.points, &m.attractors, &m.kinds, a, b);
    for k in 19..25 {
        assert_eq!(morphed[k].x, m.points[k].x);
        assert_eq!(morphed[k].y, m.points[k].y);
        assert_eq!(morphed[k].den, 1);
    }
}

#[test]
fn unit_coefficient_collapses_onto_attractors() {
    // With a = b = 1, internal corners land on the center and midpoints on
    // their corner; fixed corners still do not move.
    let m = mesh(1, 1).unwrap();
    let one = Coeff { num: 1, den: 1 };
    let morphed = morph(&m.points, &m.attractors, &m.kinds, one, one);
    for k in 0..25 {
        if m.kinds[k].kind == CORNER {
            assert_eq!(morphed[k].x, m.points[k].x);
            assert_eq!(morphed[k].y, m.points[k].y);
        } else {
            let target = m.attractors[k].to_point();
            assert_eq!(morphed[k].x, target.x);
            assert_eq!(morphed[k].y, target.y);
        }
        assert_eq!(morphed[k].den, 1);
    }
}

#[test]
fn morph_point_interpolates_exactly() {
    let p = Point {
        x: Scalar { lin: 4, rad: 0, off: 0 },
        y: Scalar { lin: 0, rad: 2, off: 0 },
    };
    let target = Point {
        x: Scalar { lin: 8, rad: 0, off: 0 },
        y: Scalar { lin: 0, rad: 6, off: 0 },
    };
    // A MID vertex with a = 1/2: halfway toward the target, over a common
    // denominator of 2.
    let a = Coeff { num: 1, den: 2 };
    let b = Coeff { num: 0, den: 1 };
    let r = morph_point(p, target, Kind { kind: MID }, a, b);
    assert_eq!(r.den, 2);
    assert_eq!(r.x, Scalar { lin: 12, rad: 0, off: 0 });
    assert_eq!(r.y, Scalar { lin: 0, rad: 8, off: 0 });
}
