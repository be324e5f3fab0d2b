//! Area and centroid of simple polygons.
//!
//! A polygon is given by its vertices in boundary order, as a flat sequence of
//! coordinates `[x0, y0, x1, y1, ...]`. The coordinates may be of any number
//! type that is a [`Scalar`].
//!
//! [`Polygon`] owns a vertex sequence and keeps it well-formed.
//! [`polygon_area_internal`] and [`polygon_centroid_internal`] work on a bare
//! vertex sequence.
//!
//! What the functions return is stated over the operations of the scalar, in
//! the order in which they are performed. The modules [`laws`] and [`lattice`]
//! hold what follows where those operations are exact.

pub mod area;
pub mod centroid;
pub mod edges;
pub mod error;
pub mod lattice;
pub mod laws;
pub mod polygon;
pub mod scalar;
pub mod sums;

pub use area::polygon_area_internal;
pub use centroid::{centroid_algorithm, polygon_centroid_internal, shift_x, shift_y};
pub use edges::Edge;
pub use error::PolygonError;
pub use polygon::Polygon;
pub use scalar::Scalar;
