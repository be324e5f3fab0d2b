//! The centroid of a polygon: the centre of mass of its interior.
//!
//! The formula of Bourke and Nürnberg is defined for polygons that lie in the
//! quadrant of non-negative coordinates. A polygon that reaches below zero is
//! moved into that quadrant first, and its centroid is moved back afterwards.
use crate::area::{area_defined, area_of, cross, cross_defined, cross_of, polygon_area_internal};
use crate::edges::{edge, edge_at, point_count, point_count_of, Edge};
use crate::error::PolygonError;
use crate::scalar::{
    constant, constant_of, exact, is_negative, magnitude, magnitude_defined, magnitude_of,
    negative, total, Scalar,
};
use vstd::prelude::*;
use vstd::std_specs::cmp::*;
use vstd::std_specs::ops::*;

verus! {

/// The lowest of the coordinates at `offset` (0 for x, 1 for y) of the first
/// `k` points, found by a scan in boundary order that starts from the first
/// point and moves on whenever a coordinate is less than the lowest so far.
pub open spec fn lowest<T: Scalar>(vertices: Seq<T>, offset: int, k: nat) -> T
    decreases k,
{
    if k == 0 {
        vertices[offset]
    } else {
        let before = lowest(vertices, offset, (k - 1) as nat);
        let here = vertices[2 * (k - 1) + offset];
        if here.is_lt(&before) {
            here
        } else {
            before
        }
    }
}

/// The lowest x-coordinate of the polygon.
pub open spec fn min_x_of<T: Scalar>(vertices: Seq<T>) -> T {
    lowest(vertices, 0, point_count_of(vertices.len()))
}

/// The lowest y-coordinate of the polygon.
pub open spec fn min_y_of<T: Scalar>(vertices: Seq<T>) -> T {
    lowest(vertices, 1, point_count_of(vertices.len()))
}

/// The distance by which an axis is moved so that its lowest coordinate
/// `low` comes to lie at zero, if `low` is negative; `None` if the axis stays.
pub open spec fn shift_of<T: Scalar>(low: T) -> Option<T> {
    if negative(low) {
        Some(low.neg_spec())
    } else {
        None
    }
}

/// The negation that `shift_of` may need is defined.
pub open spec fn shift_defined<T: Scalar>(low: T) -> bool {
    negative(low) ==> low.neg_req()
}

/// Position `j` of a flat sequence of `len` coordinates holds the x of a point.
pub open spec fn holds_x(len: nat, j: int) -> bool {
    0 <= j && j % 2 == 0 && j + 1 < len
}

/// Position `j` of a flat sequence of `len` coordinates holds the y of a point.
pub open spec fn holds_y(len: nat, j: int) -> bool {
    0 <= j < len && j % 2 == 1
}

/// The vertex sequence with `dx` added to the x-coordinate of every point.
pub open spec fn shifted_x<T: Scalar>(vertices: Seq<T>, dx: T) -> Seq<T> {
    Seq::new(
        vertices.len(),
        |j: int|
            if holds_x(vertices.len(), j) {
                vertices[j].add_spec(dx)
            } else {
                vertices[j]
            },
    )
}

/// The vertex sequence with `dy` added to the y-coordinate of every point.
pub open spec fn shifted_y<T: Scalar>(vertices: Seq<T>, dy: T) -> Seq<T> {
    Seq::new(
        vertices.len(),
        |j: int|
            if holds_y(vertices.len(), j) {
                vertices[j].add_spec(dy)
            } else {
                vertices[j]
            },
    )
}

/// The additions of `shifted_x` are defined.
pub open spec fn shift_x_defined<T: Scalar>(vertices: Seq<T>, dx: T) -> bool {
    forall|j: int| holds_x(vertices.len(), j) ==> #[trigger] vertices[j].add_req(dx)
}

/// The additions of `shifted_y` are defined.
pub open spec fn shift_y_defined<T: Scalar>(vertices: Seq<T>, dy: T) -> bool {
    forall|j: int| holds_y(vertices.len(), j) ==> #[trigger] vertices[j].add_req(dy)
}

/// The vertex sequence moved along each axis that has a shift.
pub open spec fn moved<T: Scalar>(vertices: Seq<T>, dx: Option<T>, dy: Option<T>) -> Seq<T> {
    let along_x = match dx {
        Some(d) => shifted_x(vertices, d),
        None => vertices,
    };
    match dy {
        Some(d) => shifted_y(along_x, d),
        None => along_x,
    }
}

/// The additions of `moved` are defined.
pub open spec fn move_defined<T: Scalar>(vertices: Seq<T>, dx: Option<T>, dy: Option<T>) -> bool {
    let along_x = match dx {
        Some(d) => shifted_x(vertices, d),
        None => vertices,
    };
    &&& dx matches Some(d) ==> shift_x_defined(vertices, d)
    &&& dy matches Some(d) ==> shift_y_defined(along_x, d)
}

/// A coordinate of the centroid moved back by the shift of its axis.
pub open spec fn moved_back<T: Scalar>(coordinate: T, shift: Option<T>) -> T {
    match shift {
        Some(d) => coordinate.sub_spec(d),
        None => coordinate,
    }
}

/// The subtraction of `moved_back` is defined.
pub open spec fn move_back_defined<T: Scalar>(coordinate: T, shift: Option<T>) -> bool {
    shift matches Some(d) ==> coordinate.sub_req(d)
}

/// One of the four coordinates of the edge is negative.
pub open spec fn edge_negative<T: Scalar>(e: Edge<T>) -> bool {
    negative(e.x1) || negative(e.x2) || negative(e.y1) || negative(e.y2)
}

/// The `i`-th edge of the boundary has a negative coordinate.
pub open spec fn negative_at<T: Scalar>(vertices: Seq<T>, i: int) -> bool {
    edge_negative(edge_at(vertices, i))
}

/// One of the first `k` edges has a negative coordinate.
pub open spec fn negative_before<T: Scalar>(vertices: Seq<T>, k: nat) -> bool {
    exists|i: int| 0 <= i < k && #[trigger] negative_at(vertices, i)
}

/// What an edge adds to the first moment about the y-axis:
/// `(x1 + x2) * (x1 * y2 - x2 * y1)`.
pub open spec fn x_term<T: Scalar>(e: Edge<T>) -> T {
    e.x1.add_spec(e.x2).mul_spec(cross_of(e))
}

/// What an edge adds to the first moment about the x-axis:
/// `(y1 + y2) * (x1 * y2 - x2 * y1)`.
pub open spec fn y_term<T: Scalar>(e: Edge<T>) -> T {
    e.y1.add_spec(e.y2).mul_spec(cross_of(e))
}

/// The operations of `x_term` and `y_term` are defined on this edge.
pub open spec fn terms_defined<T: Scalar>(e: Edge<T>) -> bool {
    &&& cross_defined(e)
    &&& e.x1.add_req(e.x2)
    &&& e.x1.add_spec(e.x2).mul_req(cross_of(e))
    &&& e.y1.add_req(e.y2)
    &&& e.y1.add_spec(e.y2).mul_req(cross_of(e))
}

/// The sum of the x-terms of the first `k` edges, added up in boundary order
/// from zero.
pub open spec fn moment_x<T: Scalar>(vertices: Seq<T>, k: nat) -> T
    decreases k,
{
    if k == 0 {
        constant_of::<T>(0)
    } else {
        moment_x(vertices, (k - 1) as nat).add_spec(x_term(edge_at(vertices, k - 1)))
    }
}

/// The sum of the y-terms of the first `k` edges, added up in boundary order
/// from zero.
pub open spec fn moment_y<T: Scalar>(vertices: Seq<T>, k: nat) -> T
    decreases k,
{
    if k == 0 {
        constant_of::<T>(0)
    } else {
        moment_y(vertices, (k - 1) as nat).add_spec(y_term(edge_at(vertices, k - 1)))
    }
}

/// The operations that extend both moments by the `i`-th edge are defined.
pub open spec fn moment_step_defined<T: Scalar>(vertices: Seq<T>, i: int) -> bool {
    &&& terms_defined(edge_at(vertices, i))
    &&& moment_x(vertices, i as nat).add_req(x_term(edge_at(vertices, i)))
    &&& moment_y(vertices, i as nat).add_req(y_term(edge_at(vertices, i)))
}

/// A coordinate of the centroid from its moment: `|moment / (6 * area)|`.
pub open spec fn coordinate_of<T: Scalar>(moment: T, area: T) -> T {
    magnitude_of(moment.div_spec(constant_of::<T>(6).mul_spec(area)))
}

/// The operations of `coordinate_of` are defined.
pub open spec fn coordinate_defined<T: Scalar>(moment: T, area: T) -> bool {
    &&& constant_of::<T>(6).mul_req(area)
    &&& moment.div_req(constant_of::<T>(6).mul_spec(area))
    &&& magnitude_defined(moment.div_spec(constant_of::<T>(6).mul_spec(area)))
}

/// The area that the centroid formula divides by: the one that the caller
/// supplied, or else the area of `vertices`.
pub open spec fn area_used<T: Scalar>(vertices: Seq<T>, area: Option<T>) -> T {
    match area {
        Some(a) => a,
        None => area_of(vertices),
    }
}

/// The centroid by the formula of Bourke and Nürnberg, which refuses a
/// polygon that has a negative coordinate.
pub open spec fn quadrant_centroid_of<T: Scalar>(vertices: Seq<T>, area: Option<T>) -> Result<
    (T, T),
    PolygonError,
> {
    let count = point_count_of(vertices.len());
    let a = area_used(vertices, area);
    if negative_before(vertices, count) {
        Err(PolygonError::NegativeVertex)
    } else {
        Ok((coordinate_of(moment_x(vertices, count), a), coordinate_of(moment_y(vertices, count), a)))
    }
}

/// Every operation that the centroid formula performs on `vertices` is
/// defined: those of the area where none is supplied, those of each edge up
/// to the first one with a negative coordinate, and, where there is no such
/// edge, those of the final division.
pub open spec fn quadrant_centroid_defined<T: Scalar>(vertices: Seq<T>, area: Option<T>) -> bool {
    let count = point_count_of(vertices.len());
    let a = area_used(vertices, area);
    &&& area is None ==> area_defined(vertices)
    &&& forall|i: int|
        0 <= i < count && !negative_before(vertices, (i + 1) as nat)
            ==> #[trigger] moment_step_defined(vertices, i)
    &&& !negative_before(vertices, count) ==> {
        &&& coordinate_defined(moment_x(vertices, count), a)
        &&& coordinate_defined(moment_y(vertices, count), a)
    }
}

/// The centroid of the polygon whose boundary is `vertices`.
///
/// Each axis whose lowest coordinate is negative is moved so that this
/// coordinate comes to lie at zero; the formula is applied to the moved
/// polygon, and the result is moved back by the same distances. A supplied
/// `area` is used as it is; without one, the area of the moved polygon is used.
pub open spec fn centroid_of<T: Scalar>(vertices: Seq<T>, area: Option<T>) -> Result<
    (T, T),
    PolygonError,
> {
    let dx = shift_of(min_x_of(vertices));
    let dy = shift_of(min_y_of(vertices));
    match quadrant_centroid_of(moved(vertices, dx, dy), area) {
        Ok((x, y)) => Ok((moved_back(x, dx), moved_back(y, dy))),
        Err(e) => Err(e),
    }
}

/// Every operation that `centroid_of` performs on `vertices` is defined.
pub open spec fn centroid_defined<T: Scalar>(vertices: Seq<T>, area: Option<T>) -> bool {
    let dx = shift_of(min_x_of(vertices));
    let dy = shift_of(min_y_of(vertices));
    &&& shift_defined(min_x_of(vertices))
    &&& shift_defined(min_y_of(vertices))
    &&& move_defined(vertices, dx, dy)
    &&& quadrant_centroid_defined(moved(vertices, dx, dy), area)
    &&& quadrant_centroid_of(moved(vertices, dx, dy), area) matches Ok((x, y)) ==> {
        &&& move_back_defined(x, dx)
        &&& move_back_defined(y, dy)
    }
}

/// Finds the lowest x- and the lowest y-coordinate of the polygon.
pub fn lowest_coordinates<T: Scalar>(vertices: &Vec<T>) -> (low: (T, T))
    requires
        vertices@.len() >= 2,
    ensures
        exact::<T>() ==> low == (min_x_of(vertices@), min_y_of(vertices@)),
{
    let count = point_count(vertices);
    let mut min_x = vertices[0];
    let mut min_y = vertices[1];
    let mut i: usize = 0;
    while i < count
        invariant
            i <= count,
            count == point_count_of(vertices@.len()),
            exact::<T>() ==> min_x == lowest(vertices@, 0, i as nat),
            exact::<T>() ==> min_y == lowest(vertices@, 1, i as nat),
        decreases count - i,
    {
        assert(2 * i + 1 < vertices.len());
        let x = vertices[2 * i];
        let y = vertices[2 * i + 1];
        if x < min_x {
            min_x = x;
        }
        if y < min_y {
            min_y = y;
        }
        i += 1;
    }
    (min_x, min_y)
}

/// Returns a copy of `vertices` in which `dx` is added to the x-coordinate of
/// every point. The sequence that was passed in is left as it is.
pub fn shift_x<T: Scalar>(vertices: &Vec<T>, dx: T) -> (shifted: Vec<T>)
    requires
        total::<T>() || (exact::<T>() && shift_x_defined(vertices@, dx)),
    ensures
        shifted@.len() == vertices@.len(),
        forall|j: int|
            0 <= j < vertices@.len() && !holds_x(vertices@.len(), j) ==> shifted@[j] == vertices@[j],
        exact::<T>() ==> shifted@ == shifted_x(vertices@, dx),
{
    let n = vertices.len();
    let mut shifted: Vec<T> = Vec::with_capacity(n);
    let mut j: usize = 0;
    while j < n
        invariant
            j <= n,
            n == vertices@.len(),
            total::<T>() || (exact::<T>() && shift_x_defined(vertices@, dx)),
            shifted@.len() == j,
            forall|k: int| 0 <= k < j && !holds_x(vertices@.len(), k) ==> shifted@[k] == vertices@[k],
            exact::<T>() ==> shifted@ == shifted_x(vertices@, dx).take(j as int),
        decreases n - j,
    {
        let c = vertices[j];
        if j % 2 == 0 && j + 1 < n {
            shifted.push(c + dx);
        } else {
            shifted.push(c);
        }
        proof {
            if exact::<T>() {
                assert(shifted@ =~= shifted_x(vertices@, dx).take(j + 1));
            }
        }
        j += 1;
    }
    proof {
        if exact::<T>() {
            assert(shifted@ =~= shifted_x(vertices@, dx));
        }
    }
    shifted
}

/// Returns a copy of `vertices` in which `dy` is added to the y-coordinate of
/// every point. The sequence that was passed in is left as it is.
pub fn shift_y<T: Scalar>(vertices: &Vec<T>, dy: T) -> (shifted: Vec<T>)
    requires
        total::<T>() || (exact::<T>() && shift_y_defined(vertices@, dy)),
    ensures
        shifted@.len() == vertices@.len(),
        forall|j: int|
            0 <= j < vertices@.len() && !holds_y(vertices@.len(), j) ==> shifted@[j] == vertices@[j],
        exact::<T>() ==> shifted@ == shifted_y(vertices@, dy),
{
    let n = vertices.len();
    let mut shifted: Vec<T> = Vec::with_capacity(n);
    let mut j: usize = 0;
    while j < n
        invariant
            j <= n,
            n == vertices@.len(),
            total::<T>() || (exact::<T>() && shift_y_defined(vertices@, dy)),
            shifted@.len() == j,
            forall|k: int| 0 <= k < j && !holds_y(vertices@.len(), k) ==> shifted@[k] == vertices@[k],
            exact::<T>() ==> shifted@ == shifted_y(vertices@, dy).take(j as int),
        decreases n - j,
    {
        let c = vertices[j];
        if j % 2 == 1 {
            shifted.push(c + dy);
        } else {
            shifted.push(c);
        }
        proof {
            if exact::<T>() {
                assert(shifted@ =~= shifted_y(vertices@, dy).take(j + 1));
            }
        }
        j += 1;
    }
    proof {
        if exact::<T>() {
            assert(shifted@ =~= shifted_y(vertices@, dy));
        }
    }
    shifted
}

/// Whether one of the four coordinates of the edge is negative.
pub fn has_negative<T: Scalar>(e: &Edge<T>) -> (b: bool)
    ensures
        exact::<T>() ==> b == edge_negative(*e),
{
    is_negative(e.x1) || is_negative(e.x2) || is_negative(e.y1) || is_negative(e.y2)
}

/// Computes the centroid of a polygon that lies in the quadrant of
/// non-negative coordinates, by the formula of Bourke and Nürnberg.
///
/// The formula does not hold for a polygon with a negative coordinate: such a
/// polygon is refused with `NegativeVertex`. Where no `area` is supplied, the
/// area of `vertices` is computed. A polygon of area zero has no centroid: the
/// result is then whatever the scalar's division by zero gives.
pub fn centroid_algorithm<T: Scalar>(vertices: &Vec<T>, area: Option<T>) -> (r: Result<
    (T, T),
    PolygonError,
>)
    requires
        total::<T>() || (exact::<T>() && quadrant_centroid_defined(vertices@, area)),
    ensures
        exact::<T>() ==> r == quadrant_centroid_of(vertices@, area),
        r matches Err(e) ==> e == PolygonError::NegativeVertex,
{
    let a = match area {
        Some(a) => a,
        None => polygon_area_internal(vertices),
    };
    let count = point_count(vertices);
    let mut sum_x: T = constant(0);
    let mut sum_y: T = constant(0);
    let mut i: usize = 0;
    while i < count
        invariant
            i <= count,
            count == point_count_of(vertices@.len()),
            total::<T>() || (exact::<T>() && quadrant_centroid_defined(vertices@, area)),
            exact::<T>() ==> sum_x == moment_x(vertices@, i as nat),
            exact::<T>() ==> sum_y == moment_y(vertices@, i as nat),
            exact::<T>() ==> !negative_before(vertices@, i as nat),
        decreases count - i,
    {
        let e = edge(vertices, i);
        if has_negative(&e) {
            proof {
                if exact::<T>() {
                    assert(negative_at(vertices@, i as int));
                }
            }
            return Err(PolygonError::NegativeVertex);
        }
        proof {
            if exact::<T>() {
                assert(!negative_at(vertices@, i as int));
                assert(!negative_before(vertices@, (i + 1) as nat));
                assert(moment_step_defined(vertices@, i as int));
            }
        }
        let c = cross(&e);
        sum_x = sum_x + (e.x1 + e.x2) * c;
        sum_y = sum_y + (e.y1 + e.y2) * c;
        i += 1;
    }
    let six: T = constant(6);
    let divisor = six * a;
    Ok((magnitude(sum_x / divisor), magnitude(sum_y / divisor)))
}

/// Moves a coordinate of the centroid back by the shift of its axis.
fn move_back<T: Scalar>(coordinate: T, shift: Option<T>) -> (c: T)
    requires
        total::<T>() || (exact::<T>() && move_back_defined(coordinate, shift)),
    ensures
        exact::<T>() ==> c == moved_back(coordinate, shift),
{
    match shift {
        Some(d) => coordinate - d,
        None => coordinate,
    }
}

/// The distance by which an axis with the lowest coordinate `low` is moved.
fn shift_for<T: Scalar>(low: T) -> (shift: Option<T>)
    requires
        total::<T>() || (exact::<T>() && shift_defined(low)),
    ensures
        exact::<T>() ==> shift == shift_of(low),
{
    if is_negative(low) {
        Some(low.neg())
    } else {
        None
    }
}

/// Computes the centroid of the polygon whose boundary is `vertices`.
///
/// A polygon with negative coordinates is accepted: a copy of it is moved into
/// the quadrant of non-negative coordinates, and the centroid of the copy is
/// moved back. A supplied `area` must be the area of this polygon; it spares
/// the function from computing it again. A polygon of area zero has no
/// centroid: the result is then whatever the scalar's division by zero gives.
pub fn polygon_centroid_internal<T: Scalar>(vertices: &Vec<T>, area: Option<T>) -> (r: Result<
    (T, T),
    PolygonError,
>)
    requires
        vertices@.len() >= 2,
        total::<T>() || (exact::<T>() && centroid_defined(vertices@, area)),
    ensures
        exact::<T>() ==> r == centroid_of(vertices@, area),
        r matches Err(e) ==> e == PolygonError::NegativeVertex,
{
    let (min_x, min_y) = lowest_coordinates(vertices);
    let dx = shift_for(min_x);
    let dy = shift_for(min_y);
    let shifted = match (dx, dy) {
        (Some(along_x), Some(along_y)) => shift_y(&shift_x(vertices, along_x), along_y),
        (Some(along_x), None) => shift_x(vertices, along_x),
        (None, Some(along_y)) => shift_y(vertices, along_y),
        (None, None) => {
            return centroid_algorithm(vertices, area);
        },
    };
    match centroid_algorithm(&shifted, area) {
        Ok((x, y)) => Ok((move_back(x, dx), move_back(y, dy))),
        Err(e) => Err(e),
    }
}

} // verus!
