//! A polygon that owns its vertices and keeps them well-formed.
use crate::area::{area_defined, area_of, polygon_area_internal};
use crate::centroid::{centroid_defined, centroid_of, polygon_centroid_internal};
use crate::error::PolygonError;
use crate::scalar::{exact, total, Scalar};
use vstd::prelude::*;

verus! {

/// A flat vertex sequence of `len` coordinates is well-formed: it is made of
/// (x, y) pairs, and of at least three of them.
pub open spec fn well_formed(len: nat) -> bool {
    len % 2 == 0 && len >= 6
}

/// The verdict on a flat vertex sequence of `len` coordinates. An odd length
/// is reported before a short one.
pub open spec fn validation_of(len: nat) -> Result<(), PolygonError> {
    if len % 2 != 0 {
        Err(PolygonError::InvalidShape)
    } else if len < 6 {
        Err(PolygonError::InsufficientVertices)
    } else {
        Ok(())
    }
}

/// A polygon, defined by its vertices in boundary order, stored as a flat
/// sequence `[x0, y0, x1, y1, ...]`.
///
/// The stored sequence is well-formed at all times.
#[derive(Debug)]
pub struct Polygon<T> {
    vertices: Vec<T>,
}

impl<T> View for Polygon<T> {
    type V = Seq<T>;

    /// The stored vertex sequence.
    closed spec fn view(&self) -> Seq<T> {
        self.vertices@
    }
}

impl<T> Polygon<T> {
    #[verifier::type_invariant]
    spec fn holds_well_formed(self) -> bool {
        well_formed(self.vertices@.len())
    }

    /// Checks that a flat vertex sequence is made of (x, y) pairs and holds at
    /// least three points. What the coordinates are plays no part.
    pub fn validate_vertices(vertices: &Vec<T>) -> (r: Result<(), PolygonError>)
        ensures
            r == validation_of(vertices@.len()),
            r is Ok <==> well_formed(vertices@.len()),
    {
        let n = vertices.len();
        if n % 2 != 0 {
            return Err(PolygonError::InvalidShape);
        }
        if n < 6 {
            return Err(PolygonError::InsufficientVertices);
        }
        Ok(())
    }

    /// Creates a polygon from its vertices, or says why they are refused.
    pub fn new(vertices: Vec<T>) -> (r: Result<Self, PolygonError>)
        ensures
            vertices@.len() % 2 != 0 ==> r matches Err(PolygonError::InvalidShape),
            vertices@.len() % 2 == 0 && vertices@.len() < 6 ==> r matches Err(
                PolygonError::InsufficientVertices,
            ),
            well_formed(vertices@.len()) ==> (r matches Ok(polygon) && polygon@ == vertices@),
    {
        match Self::validate_vertices(&vertices) {
            Ok(()) => Ok(Polygon { vertices }),
            Err(e) => Err(e),
        }
    }

    /// Replaces the vertices of the polygon. Vertices that are refused leave
    /// the polygon as it was.
    pub fn set_vertices(&mut self, vertices: Vec<T>) -> (r: Result<(), PolygonError>)
        ensures
            r == validation_of(vertices@.len()),
            r is Ok ==> final(self)@ == vertices@,
            r is Err ==> *final(self) == *old(self),
    {
        match Self::validate_vertices(&vertices) {
            Ok(()) => {
                self.vertices = vertices;
                Ok(())
            },
            Err(e) => Err(e),
        }
    }

    /// The vertices of the polygon.
    pub fn vertices(&self) -> (vertices: &Vec<T>)
        ensures
            vertices@ == self@,
            well_formed(vertices@.len()),
    {
        proof {
            use_type_invariant(self);
        }
        &self.vertices
    }
}

impl<T: Scalar> Polygon<T> {
    /// Computes the area of the polygon.
    pub fn area(&self) -> (area: T)
        requires
            total::<T>() || (exact::<T>() && area_defined(self@)),
        ensures
            exact::<T>() ==> area == area_of(self@),
    {
        polygon_area_internal(&self.vertices)
    }

    /// Computes the centroid of the polygon. A supplied `area` must be the
    /// area of this polygon; it spares the function from computing it again.
    pub fn centroid(&self, area: Option<T>) -> (r: Result<(T, T), PolygonError>)
        requires
            total::<T>() || (exact::<T>() && centroid_defined(self@, area)),
        ensures
            exact::<T>() ==> r == centroid_of(self@, area),
            r matches Err(e) ==> e == PolygonError::NegativeVertex,
    {
        proof {
            use_type_invariant(self);
        }
        polygon_centroid_internal(&self.vertices, area)
    }
}

} // verus!
