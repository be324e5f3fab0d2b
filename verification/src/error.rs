//! The ways in which a vertex sequence can be refused.
use vstd::prelude::*;

verus! {

/// Why a vertex sequence was refused.
#[derive(Clone, Copy, Debug, PartialEq, Eq, Structural)]
pub enum PolygonError {
    /// The sequence has an odd number of coordinates, so it is not made of (x, y) pairs.
    InvalidShape,
    /// The sequence holds fewer than three points.
    InsufficientVertices,
    /// The centroid formula met a negative coordinate.
    NegativeVertex,
}

impl PolygonError {
    /// The text that describes each error.
    pub open spec fn message_of(self) -> Seq<char> {
        match self {
            PolygonError::InvalidShape =>
                "Vertices should be provided as a flat array, e.g. [x1, y1, x2, y2, ...]"@,
            PolygonError::InsufficientVertices => "A polygon should have at least 3 vertices."@,
            PolygonError::NegativeVertex => "Polygon contains negative vertices."@,
        }
    }

    /// A description of the error for the user.
    pub fn message(&self) -> (text: String)
        ensures
            text@ == self.message_of(),
    {
        match self {
            PolygonError::InvalidShape =>
                "Vertices should be provided as a flat array, e.g. [x1, y1, x2, y2, ...]".to_owned(),
            PolygonError::InsufficientVertices =>
                "A polygon should have at least 3 vertices.".to_owned(),
            PolygonError::NegativeVertex => "Polygon contains negative vertices.".to_owned(),
        }
    }
}

} // verus!
