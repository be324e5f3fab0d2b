//! The area of a polygon by the shoelace formula.
use crate::edges::{edge, edge_at, point_count, point_count_of, Edge};
use crate::scalar::{
    constant, constant_of, exact, magnitude, magnitude_defined, magnitude_of, total, Scalar,
};
use vstd::prelude::*;
use vstd::std_specs::ops::*;

verus! {

/// The cross product `x1 * y2 - x2 * y1` of the two ends of an edge.
pub open spec fn cross_of<T: Scalar>(e: Edge<T>) -> T {
    e.x1.mul_spec(e.y2).sub_spec(e.x2.mul_spec(e.y1))
}

/// The operations of `cross_of` are defined on this edge.
pub open spec fn cross_defined<T: Scalar>(e: Edge<T>) -> bool {
    &&& e.x1.mul_req(e.y2)
    &&& e.x2.mul_req(e.y1)
    &&& e.x1.mul_spec(e.y2).sub_req(e.x2.mul_spec(e.y1))
}

/// The sum of the cross products of the first `k` edges, added up in boundary
/// order from zero.
pub open spec fn shoelace_sum<T: Scalar>(vertices: Seq<T>, k: nat) -> T
    decreases k,
{
    if k == 0 {
        constant_of::<T>(0)
    } else {
        shoelace_sum(vertices, (k - 1) as nat).add_spec(cross_of(edge_at(vertices, k - 1)))
    }
}

/// The operations that extend the shoelace sum by the `i`-th edge are defined.
pub open spec fn shoelace_step_defined<T: Scalar>(vertices: Seq<T>, i: int) -> bool {
    &&& cross_defined(edge_at(vertices, i))
    &&& shoelace_sum(vertices, i as nat).add_req(cross_of(edge_at(vertices, i)))
}

/// The area that the shoelace formula gives: half the absolute value of the
/// sum of the cross products of all edges.
pub open spec fn area_of<T: Scalar>(vertices: Seq<T>) -> T {
    magnitude_of(shoelace_sum(vertices, point_count_of(vertices.len()))).div_spec(
        constant_of::<T>(2),
    )
}

/// Every operation that the shoelace formula performs on `vertices` is defined.
pub open spec fn area_defined<T: Scalar>(vertices: Seq<T>) -> bool {
    let sum = shoelace_sum(vertices, point_count_of(vertices.len()));
    &&& forall|i: int|
        0 <= i < point_count_of(vertices.len()) ==> #[trigger] shoelace_step_defined(vertices, i)
    &&& magnitude_defined(sum)
    &&& magnitude_of(sum).div_req(constant_of::<T>(2))
}

/// The cross product of the two ends of an edge.
pub fn cross<T: Scalar>(e: &Edge<T>) -> (c: T)
    requires
        total::<T>() || (exact::<T>() && cross_defined(*e)),
    ensures
        exact::<T>() ==> c == cross_of(*e),
{
    e.x1 * e.y2 - e.x2 * e.y1
}

/// Computes the area of the polygon whose boundary is `vertices`, by the
/// shoelace formula.
///
/// The boundary may be walked in either direction. A polygon whose points all
/// lie on one line has area zero.
pub fn polygon_area_internal<T: Scalar>(vertices: &Vec<T>) -> (area: T)
    requires
        total::<T>() || (exact::<T>() && area_defined(vertices@)),
    ensures
        exact::<T>() ==> area == area_of(vertices@),
{
    let count = point_count(vertices);
    let mut sum: T = constant(0);
    let mut i: usize = 0;
    while i < count
        invariant
            i <= count,
            count == point_count_of(vertices@.len()),
            total::<T>() || (exact::<T>() && area_defined(vertices@)),
            exact::<T>() ==> sum == shoelace_sum(vertices@, i as nat),
        decreases count - i,
    {
        assert(total::<T>() || shoelace_step_defined(vertices@, i as int));
        let e = edge(vertices, i);
        let c = cross(&e);
        sum = sum + c;
        i += 1;
    }
    let two: T = constant(2);
    magnitude(sum) / two
}

} // verus!
