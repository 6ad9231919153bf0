//! Exact-arithmetic generation of a morphable hexagonal-grid mesh.
//!
//! The library lays hexagonal tiles out on an even-column-offset grid and
//! assembles parallel vertex buffers (positions, attractor targets, kind
//! tags) together with line and triangle index lists. Every coordinate is
//! kept in an exact form — an integer combination of `size`, `size*sqrt(3)`
//! and whole units — so the geometry of the mesh and the per-vertex morph
//! rule are stated and proved without rounding. Turning the exact values
//! into floating-point buffers for a rendering backend is left to callers.

pub mod geometry;
pub mod mesh;
pub mod morph;
pub mod properties;
pub mod scalar;

pub use geometry::{
    coordinates, Attractor, EvenqCoordinate, Hexagon, Kind, Point, PointModel, CORNER, INTERNAL,
    MID,
};
pub use mesh::{hexagons, mesh, mesh_with_offset, Mesh, MeshError};
pub use morph::{morph, morph_point, multiplier, Coeff, MorphPoint};
pub use scalar::{Scalar, ScalarModel};
