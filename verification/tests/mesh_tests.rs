use geotoy::{
    coordinates, hexagons, mesh, mesh_with_offset, EvenqCoordinate, MeshError, Scalar, CORNER,
    INTERNAL, MID,
};

/// The real number a scalar stands for, for a given hexagon edge size.
fn eval(s: Scalar, size: f64) -> f64 {
    (s.lin as f64 + s.rad as f64 * 3f64.sqrt()) / 4.0 * size + s.off as f64
}

#[test]
fn end_to_end_single_hexagon() {
    let m = mesh(1, 1).unwrap();
    assert_eq!(m.points.len(), 25);
    assert_eq!(m.attractors.len(), 25);
    assert_eq!(m.kinds.len(), 25);
    // 12 line segments, i.e. 24 indices, per hexagon.
    assert_eq!(m.lines.len(), 24);
    // 12 triangles, i.e. 36 indices, per hexagon.
    assert_eq!(m.triangles.len(), 36);

    let n_internal = m.kinds.iter().filter(|k| k.kind == INTERNAL).count();
    let n_mid = m.kinds.iter().filter(|k| k.kind == MID).count();
    let n_corner = m.kinds.iter().filter(|k| k.kind == CORNER).count();
    assert_eq!(n_internal, 7);
    assert_eq!(n_mid, 12);
    assert_eq!(n_corner, 6);

    // Corner 0 sits due east of the center, one edge length away.
    let center = m.points[0];
    let corner0 = m.points[1];
    assert_eq!(corner0.x, Scalar { lin: 4, rad: 0, off: -1 });
    assert_eq!(corner0.y, Scalar { lin: 0, rad: 0, off: -1 });
    let size = 1.0;
    assert_eq!(eval(corner0.x, size), eval(center.x, size) + size);
    assert_eq!(eval(corner0.y, size), eval(center.y, size));

    // The grid is recentered by (-1, -1): the single center sits at it.
    assert_eq!(eval(center.x, size), -1.0);
    assert_eq!(eval(center.y, size), -1.0);
}

#[test]
fn parallel_buffer_lengths() {
    let m = mesh(2, 3).unwrap();
    assert_eq!(m.points.len(), 2 * 3 * 25);
    assert_eq!(m.attractors.len(), m.points.len());
    assert_eq!(m.kinds.len(), m.points.len());
    assert_eq!(m.lines.len(), 2 * 3 * 24);
    assert_eq!(m.triangles.len(), 2 * 3 * 36);
}

#[test]
fn indices_address_existing_vertices() {
    let m = mesh(3, 4).unwrap();
    let n = m.points.len();
    for &ix in &m.lines {
        assert!((ix as usize) < n);
    }
    for &ix in &m.triangles {
        assert!((ix as usize) < n);
    }
}

#[test]
fn empty_grids_yield_empty_buffers() {
    for (rows, cols) in [(0, 5), (5, 0), (0, 0)] {
        let m = mesh(rows, cols).unwrap();
        assert!(m.points.is_empty());
        assert!(m.lines.is_empty());
        assert!(m.triangles.is_empty());
        assert!(m.attractors.is_empty());
        assert!(m.kinds.is_empty());
    }
}

#[test]
fn generation_is_deterministic() {
    let m1 = mesh(4, 2).unwrap();
    let m2 = mesh(4, 2).unwrap();
    assert_eq!(m1, m2);
}

#[test]
fn oversized_grids_are_rejected() {
    assert_eq!(mesh(100, 100), Err(MeshError::IndexOverflow));
    // 25 * 2621 = 65525 vertices still fit 16-bit line indices...
    assert!(mesh(1, 2621).is_ok());
    // ...but one more hexagon would not.
    assert_eq!(mesh(1, 2622), Err(MeshError::IndexOverflow));
    assert_eq!(mesh(2622, 1), Err(MeshError::IndexOverflow));
}

#[test]
fn boundary_corners_at_edge_distance() {
    let m = mesh(2, 2).unwrap();
    let size = 0.25;
    for h in 0..4 {
        let center = m.points[25 * h];
        for j in 0..6 {
            let p = m.points[25 * h + 19 + j];
            assert_eq!(m.kinds[25 * h + 19 + j].kind, CORNER);
            // Exact check: squared distance is (16 + 0 * sqrt(3)) / 16 * size^2.
            let dxl = p.x.lin - center.x.lin;
            let dxr = p.x.rad - center.x.rad;
            let dyl = p.y.lin - center.y.lin;
            let dyr = p.y.rad - center.y.rad;
            assert_eq!(p.x.off, center.x.off);
            assert_eq!(p.y.off, center.y.off);
            assert_eq!(dxl * dxl + 3 * dxr * dxr + dyl * dyl + 3 * dyr * dyr, 16);
            assert_eq!(dxl * dxr + dyl * dyr, 0);
            // Floating-point check for one concrete size.
            let dx = eval(p.x, size) - eval(center.x, size);
            let dy = eval(p.y, size) - eval(center.y, size);
            let dist = (dx * dx + dy * dy).sqrt();
            assert!((dist - size).abs() < 1e-12);
        }
    }
}

#[test]
fn mid_vertices_are_corner_means() {
    let m = mesh(2, 2).unwrap();
    for h in 0..4 {
        for j in 0..12 {
            let mid = m.points[25 * h + 7 + j];
            let a = m.points[25 * h + 1 + j / 2];
            let b = m.points[25 * h + 1 + (j / 2 + 1) % 6];
            assert_eq!(m.kinds[25 * h + 7 + j].kind, MID);
            assert_eq!(2 * mid.x.lin, a.x.lin + b.x.lin);
            assert_eq!(2 * mid.x.rad, a.x.rad + b.x.rad);
            assert_eq!(2 * mid.x.off, a.x.off + b.x.off);
            assert_eq!(2 * mid.y.lin, a.y.lin + b.y.lin);
            assert_eq!(2 * mid.y.rad, a.y.rad + b.y.rad);
            assert_eq!(2 * mid.y.off, a.y.off + b.y.off);
        }
    }
}

#[test]
fn midpoints_are_stored_twice() {
    let hexes = hexagons(2, 2);
    for hex in &hexes {
        for i in 0..6 {
            assert_eq!(hex.midpoints[2 * i], hex.midpoints[2 * i + 1]);
        }
    }
}

#[test]
fn coordinates_run_row_major() {
    let coords = coordinates(2, 3);
    let got: Vec<(usize, usize)> = coords.iter().map(|c| (c.x, c.y)).collect();
    assert_eq!(got, vec![(0, 0), (0, 1), (0, 2), (1, 0), (1, 1), (1, 2)]);
    assert_eq!(coordinates(0, 7).len(), 0);
    assert_eq!(coordinates(7, 0).len(), 0);
}

#[test]
fn cell_centers_follow_the_offset_formula() {
    let size = 2.0;
    for x in 0..3usize {
        for y in 0..3usize {
            let c = EvenqCoordinate { x, y }.center();
            let expected_x = size * 1.5 * x as f64;
            let expected_y = size * 3f64.sqrt() * (y as f64 - 0.5 * (x % 2) as f64);
            assert!((eval(c.x, size) - expected_x).abs() < 1e-12);
            assert!((eval(c.y, size) - expected_y).abs() < 1e-12);
        }
    }
}

#[test]
fn hexagon_corners_follow_the_corner_formula() {
    let size = 1.5;
    let hexes = hexagons(2, 3);
    assert_eq!(hexes.len(), 6);
    for (h, hex) in hexes.iter().enumerate() {
        let coord = EvenqCoordinate { x: h / 3, y: h % 3 };
        let center = coord.center();
        assert_eq!(hex.center, center);
        for i in 0..6 {
            let angle = std::f64::consts::PI / 180.0 * 60.0 * i as f64;
            let ex = eval(center.x, size) + size * angle.cos();
            let ey = eval(center.y, size) + size * angle.sin();
            assert!((eval(hex.corners[i].x, size) - ex).abs() < 1e-12);
            assert!((eval(hex.corners[i].y, size) - ey).abs() < 1e-12);
        }
    }
}

#[test]
fn point_midpoint_halves_component_sums() {
    let p = geotoy::Point {
        x: Scalar { lin: 6, rad: 2, off: 0 },
        y: Scalar { lin: 0, rad: 4, off: -2 },
    };
    let q = geotoy::Point {
        x: Scalar { lin: 2, rad: -2, off: 0 },
        y: Scalar { lin: 0, rad: 2, off: 0 },
    };
    let m = p.midpoint(&q);
    assert_eq!(m.x, Scalar { lin: 4, rad: 0, off: 0 });
    assert_eq!(m.y, Scalar { lin: 0, rad: 3, off: -1 });
}

#[test]
fn attractor_wraps_point_components() {
    let p = geotoy::Point {
        x: Scalar { lin: 1, rad: 2, off: 3 },
        y: Scalar { lin: 4, rad: 5, off: 6 },
    };
    let a = geotoy::Attractor::from(p);
    assert_eq!(a.attractor, [p.x, p.y]);
    assert_eq!(a.to_point(), p);
}

#[test]
fn buffer_accessors_report_the_buffers() {
    let m = mesh(2, 1).unwrap();
    assert_eq!(m.points_len(), m.points.len());
    assert_eq!(m.lines_len(), m.lines.len());
    assert_eq!(m.triangles_len(), m.triangles.len());
    assert_eq!(m.attractors_len(), m.attractors.len());
    assert_eq!(m.kinds_len(), m.kinds.len());
    assert_eq!(m.point_dim(), 2);
    assert_eq!(m.line_dim(), 1);
    assert_eq!(m.triangle_dim(), 1);
    assert_eq!(m.attractor_dim(), 2);
    assert_eq!(m.kind_dim(), 1);
    assert_eq!(m.points(), &m.points);
    assert_eq!(m.lines(), &m.lines);
    assert_eq!(m.triangles(), &m.triangles);
    assert_eq!(m.attractors(), &m.attractors);
    assert_eq!(m.kinds(), &m.kinds);
}

#[test]
fn internal_ring_attractors_point_at_the_center() {
    let m = mesh(1, 2).unwrap();
    for h in 0..2 {
        let center = m.points[25 * h];
        for k in 0..7 {
            assert_eq!(m.attractors[25 * h + k].to_point(), center);
        }
        // Midpoint copies alternate between the two corners of their edge.
        for i in 0..6 {
            let first = m.points[25 * h + 1 + i];
            let second = m.points[25 * h + 1 + (i + 1) % 6];
            assert_eq!(m.attractors[25 * h + 7 + 2 * i].to_point(), first);
            assert_eq!(m.attractors[25 * h + 7 + 2 * i + 1].to_point(), second);
        }
        // Boundary corners carry the (ignored) center attractor.
        for k in 19..25 {
            assert_eq!(m.attractors[25 * h + k].to_point(), center);
        }
    }
}

#[test]
fn centering_offset_shifts_every_vertex() {
    let centered = mesh(2, 2).unwrap();
    let raw = mesh_with_offset(2, 2, 0, 0).unwrap();
    assert_eq!(raw.points.len(), centered.points.len());
    for (r, c) in raw.points.iter().zip(centered.points.iter()) {
        assert_eq!(r.x.off - 1, c.x.off);
        assert_eq!(r.y.off - 1, c.y.off);
        assert_eq!((r.x.lin, r.x.rad), (c.x.lin, c.x.rad));
        assert_eq!((r.y.lin, r.y.rad), (c.y.lin, c.y.rad));
    }
    // Topology and kinds do not depend on the offset.
    assert_eq!(raw.lines, centered.lines);
    assert_eq!(raw.triangles, centered.triangles);
    assert_eq!(raw.kinds, centered.kinds);

    let shifted = mesh_with_offset(1, 1, 3, -2).unwrap();
    assert_eq!(shifted.points[0].x, Scalar { lin: 0, rad: 0, off: 3 });
    assert_eq!(shifted.points[0].y, Scalar { lin: 0, rad: 0, off: -2 });
}
