//! Polygons on the integer lattice: 64-bit integer coordinates.
//!
//! Integer arithmetic is exact as long as it does not overflow. This module
//! says what the area of a lattice polygon is as a plain integer, and shows
//! that on small lattice polygons no operation overflows.
use crate::area::{
    area_defined, area_of, cross_defined, cross_of, shoelace_step_defined, shoelace_sum,
};
use crate::centroid::{
    area_used, centroid_defined, centroid_of, coordinate_defined, coordinate_of, holds_x, holds_y,
    lowest, min_x_of, min_y_of, moment_step_defined, moment_x, moment_y, move_defined, moved,
    negative_at, negative_before, quadrant_centroid_defined, shift_defined, shift_of, shifted_x,
    terms_defined, x_term, y_term,
};
use crate::edges::{edge_at, lemma_edge_ends_in_next_point, point_count_of, Edge};
use crate::laws::lemma_area_position_invariant;
use crate::sums::sum_of;
use vstd::arithmetic::div_mod::{lemma_div_nonincreasing, lemma_div_pos_is_pos};
use vstd::prelude::*;
use vstd::std_specs::ops::AddSpec;

verus! {

/// The cross product of the two ends of an edge, as an integer.
pub open spec fn cross_value(e: Edge<i64>) -> int {
    e.x1 * e.y2 - e.x2 * e.y1
}

/// The cross products of the edges of a polygon, by the number of the edge.
pub open spec fn cross_values(vertices: Seq<i64>) -> spec_fn(int) -> int {
    |i: int| cross_value(edge_at(vertices, i))
}

/// The sum of the cross products of all edges of a polygon: twice its signed
/// area.
pub open spec fn shoelace_value(vertices: Seq<i64>) -> int {
    sum_of(cross_values(vertices), point_count_of(vertices.len()))
}

/// As long as nothing overflows, the shoelace sum of 64-bit coordinates is the
/// sum of the cross products as integers.
proof fn lemma_shoelace_sum_value(vertices: Seq<i64>, k: nat)
    requires
        forall|i: int| 0 <= i < k ==> #[trigger] shoelace_step_defined(vertices, i),
    ensures
        shoelace_sum(vertices, k) == sum_of(cross_values(vertices), k),
    decreases k,
{
    if k > 0 {
        lemma_shoelace_sum_value(vertices, (k - 1) as nat);
        assert(shoelace_step_defined(vertices, k - 1));
    }
}

/// On the integer lattice the area is half the absolute value of the sum of
/// the cross products, rounded towards zero.
pub proof fn lemma_lattice_area(vertices: Seq<i64>)
    requires
        area_defined(vertices),
    ensures
        area_of(vertices) == (if shoelace_value(vertices) < 0 {
            -shoelace_value(vertices)
        } else {
            shoelace_value(vertices)
        }) / 2,
{
    lemma_shoelace_sum_value(vertices, point_count_of(vertices.len()));
}

/// Every coordinate lies within `limit` of zero.
pub open spec fn bounded(vertices: Seq<i64>, limit: int) -> bool {
    forall|j: int| 0 <= j < vertices.len() ==> -limit <= #[trigger] vertices[j] <= limit
}

/// A small lattice polygon: at most 32768 whole points, each coordinate within
/// 8192 of zero.
pub open spec fn small(vertices: Seq<i64>) -> bool {
    &&& vertices.len() % 2 == 0
    &&& vertices.len() <= 65536
    &&& bounded(vertices, 8192)
}

/// A product is bounded by the product of the bounds of its factors.
proof fn lemma_product_bounded(a: int, b: int, la: int, lb: int)
    requires
        -la <= a <= la,
        -lb <= b <= lb,
    ensures
        -(la * lb) <= a * b <= la * lb,
{
    assert((la - a) * (lb - b) >= 0 && (la + a) * (lb + b) >= 0 && (la - a) * (lb + b) >= 0 && (la
        + a) * (lb - b) >= 0) by (nonlinear_arith)
        requires
            -la <= a <= la,
            -lb <= b <= lb,
    ;
    assert(-(la * lb) <= a * b <= la * lb) by (nonlinear_arith)
        requires
            (la - a) * (lb - b) >= 0,
            (la + a) * (lb + b) >= 0,
            (la - a) * (lb + b) >= 0,
            (la + a) * (lb - b) >= 0,
    ;
}

/// On an edge between points with coordinates within 16384 of zero, the cross
/// product and both terms of the moments are computed without overflow, and
/// stay within 2^29 and 2^44.
proof fn lemma_edge_within_bounds(e: Edge<i64>)
    requires
        -16384 <= e.x1 <= 16384,
        -16384 <= e.y1 <= 16384,
        -16384 <= e.x2 <= 16384,
        -16384 <= e.y2 <= 16384,
    ensures
        cross_defined(e),
        terms_defined(e),
        cross_of(e) == cross_value(e),
        -0x2000_0000 <= cross_of(e) <= 0x2000_0000,
        -0x1000_0000_0000 <= x_term(e) <= 0x1000_0000_0000,
        -0x1000_0000_0000 <= y_term(e) <= 0x1000_0000_0000,
{
    lemma_product_bounded(e.x1 as int, e.y2 as int, 16384, 16384);
    lemma_product_bounded(e.x2 as int, e.y1 as int, 16384, 16384);
    assert(16384 * 16384 == 0x1000_0000);
    let c = cross_value(e);
    assert(cross_of(e) == c);
    lemma_product_bounded(e.x1 + e.x2, c, 32768, 0x2000_0000);
    lemma_product_bounded(e.y1 + e.y2, c, 32768, 0x2000_0000);
    assert(32768 * 0x2000_0000 == 0x1000_0000_0000);
}

/// On a polygon of at most 32768 points with coordinates within 16384 of
/// zero, the sums over the first `k` edges are built without overflow.
proof fn lemma_sums_within_bounds(vertices: Seq<i64>, k: nat)
    requires
        vertices.len() % 2 == 0,
        vertices.len() <= 65536,
        bounded(vertices, 16384),
        k <= point_count_of(vertices.len()),
    ensures
        forall|i: int| 0 <= i < k ==> #[trigger] shoelace_step_defined(vertices, i),
        forall|i: int| 0 <= i < k ==> #[trigger] moment_step_defined(vertices, i),
        -k * 0x2000_0000 <= shoelace_sum(vertices, k) <= k * 0x2000_0000,
        -k * 0x1000_0000_0000 <= moment_x(vertices, k) <= k * 0x1000_0000_0000,
        -k * 0x1000_0000_0000 <= moment_y(vertices, k) <= k * 0x1000_0000_0000,
    decreases k,
{
    if k > 0 {
        lemma_sums_within_bounds(vertices, (k - 1) as nat);
        lemma_edge_ends_in_next_point(vertices, k - 1);
        lemma_edge_within_bounds(edge_at(vertices, k - 1));
        assert(shoelace_step_defined(vertices, k - 1));
        assert(moment_step_defined(vertices, k - 1));
    }
}

/// On a polygon of at most 32768 points with coordinates within 16384 of
/// zero, the area is computed without overflow.
pub proof fn lemma_area_defined_within_bounds(vertices: Seq<i64>)
    requires
        vertices.len() % 2 == 0,
        vertices.len() <= 65536,
        bounded(vertices, 16384),
    ensures
        area_defined(vertices),
        0 <= area_of(vertices) <= 0x800_0000_0000,
{
    lemma_sums_within_bounds(vertices, point_count_of(vertices.len()));
}

/// On the integer lattice the scan for the lowest coordinate finds a
/// coordinate of the polygon that none of the first `k` points goes below.
proof fn lemma_lowest_is_least(vertices: Seq<i64>, offset: int, k: nat, limit: int)
    requires
        offset == 0 || offset == 1,
        vertices.len() >= 2,
        k <= point_count_of(vertices.len()),
        bounded(vertices, limit),
    ensures
        -limit <= lowest(vertices, offset, k) <= limit,
        forall|i: int| 0 <= i < k ==> lowest(vertices, offset, k) <= #[trigger] vertices[2 * i + offset],
    decreases k,
{
    if k > 0 {
        lemma_lowest_is_least(vertices, offset, (k - 1) as nat, limit);
    }
}

/// A small lattice polygon is moved without overflow, and after the move it
/// has no negative coordinate and lies within 16384 of zero.
proof fn lemma_small_polygon_moved(vertices: Seq<i64>)
    requires
        small(vertices),
        vertices.len() >= 2,
    ensures
        shift_defined(min_x_of(vertices)),
        shift_defined(min_y_of(vertices)),
        shift_of(min_x_of(vertices)) matches Some(d) ==> 0 < d <= 8192,
        shift_of(min_y_of(vertices)) matches Some(d) ==> 0 < d <= 8192,
        move_defined(vertices, shift_of(min_x_of(vertices)), shift_of(min_y_of(vertices))),
        moved(vertices, shift_of(min_x_of(vertices)), shift_of(min_y_of(vertices))).len()
            == vertices.len(),
        forall|j: int|
            0 <= j < vertices.len() ==> 0 <= #[trigger] moved(
                vertices,
                shift_of(min_x_of(vertices)),
                shift_of(min_y_of(vertices)),
            )[j] <= 16384,
{
    let len = vertices.len();
    let count = point_count_of(len);
    let dx = shift_of(min_x_of(vertices));
    let dy = shift_of(min_y_of(vertices));
    lemma_lowest_is_least(vertices, 0, count, 8192);
    lemma_lowest_is_least(vertices, 1, count, 8192);
    let along_x = match dx {
        Some(d) => shifted_x(vertices, d),
        None => vertices,
    };
    let there = moved(vertices, dx, dy);
    assert forall|j: int| 0 <= j < len implies 0 <= #[trigger] there[j] <= 16384 by {
        let i = j / 2;
        if j % 2 == 0 {
            assert(j == 2 * i + 0);
            assert(holds_x(len, j));
            assert(!holds_y(len, j));
            assert(min_x_of(vertices) <= vertices[2 * i + 0]);
        } else {
            assert(j == 2 * i + 1);
            assert(holds_y(len, j));
            assert(!holds_x(len, j));
            assert(along_x[j] == vertices[j]);
            assert(min_y_of(vertices) <= vertices[2 * i + 1]);
        }
    }
    assert(move_defined(vertices, dx, dy)) by {
        if let Some(d) = dx {
            assert forall|j: int| holds_x(len, j) implies #[trigger] vertices[j].add_req(d) by {}
        }
        if let Some(d) = dy {
            assert forall|j: int| holds_y(along_x.len(), j) implies #[trigger] along_x[j].add_req(
                d,
            ) by {
                assert(!holds_x(len, j));
                assert(along_x[j] == vertices[j]);
            }
        }
    }
}

/// A coordinate of the centroid is computed without overflow, and is not
/// negative, where the moment lies within 2^59 of zero and the area is
/// positive and at most 2^59.
proof fn lemma_coordinate_within_bounds(moment: i64, area: i64)
    requires
        -0x800_0000_0000_0000 <= moment <= 0x800_0000_0000_0000,
        0 < area <= 0x800_0000_0000_0000,
    ensures
        coordinate_defined(moment, area),
        0 <= coordinate_of(moment, area) <= 0x800_0000_0000_0000,
{
    let divisor = 6 * area;
    if moment >= 0 {
        lemma_div_pos_is_pos(moment as int, divisor);
        lemma_div_nonincreasing(moment as int, divisor);
    } else {
        lemma_div_pos_is_pos(-moment, divisor);
        lemma_div_nonincreasing(-moment, divisor);
    }
}

/// On a small lattice polygon the centroid is computed without overflow, and
/// it is found: after the move no coordinate is negative, so the formula
/// refuses nothing. The area that is divided by must not be zero: a supplied
/// area is to be positive and at most 2^59, and where none is supplied the
/// area of the polygon is to be other than zero.
pub proof fn lemma_centroid_defined_on_small_polygon(vertices: Seq<i64>, area: Option<i64>)
    requires
        small(vertices),
        vertices.len() >= 2,
        match area {
            Some(a) => 0 < a <= 0x800_0000_0000_0000,
            None => area_of(vertices) != 0,
        },
    ensures
        centroid_defined(vertices, area),
        centroid_of(vertices, area) is Ok,
{
    let count = point_count_of(vertices.len());
    let dx = shift_of(min_x_of(vertices));
    let dy = shift_of(min_y_of(vertices));
    let there = moved(vertices, dx, dy);
    lemma_small_polygon_moved(vertices);
    assert(bounded(there, 16384));
    lemma_sums_within_bounds(there, count);
    lemma_area_defined_within_bounds(there);
    lemma_area_defined_within_bounds(vertices);
    lemma_area_position_invariant(vertices, dx, dy);
    assert forall|i: int| 0 <= i < count implies !#[trigger] negative_at(there, i) by {
        lemma_edge_ends_in_next_point(there, i);
    }
    assert(!negative_before(there, count));
    let a = area_used(there, area);
    lemma_coordinate_within_bounds(moment_x(there, count), a);
    lemma_coordinate_within_bounds(moment_y(there, count), a);
    assert(quadrant_centroid_defined(there, area));
}

} // verus!
