//! Laws of the area and the centroid.
//!
//! The area of a polygon does not depend on the point at which the walk along
//! its boundary starts, on the direction of the walk, or on where the polygon
//! lies. Arithmetic that rounds keeps these laws only up to its rounding
//! error. They are proved here for arithmetic that is exact: for polygons with
//! 64-bit integer coordinates, wherever no operation overflows.
use crate::area::{area_defined, area_of};
use crate::centroid::{
    centroid_defined, centroid_of, holds_x, holds_y, min_x_of, min_y_of, move_defined, moved,
    shift_of, shifted_x,
};
use crate::edges::{edge_at, lemma_edge_ends_in_next_point, point_count_of};
use crate::lattice::{cross_values, lemma_lattice_area, shoelace_value};
use crate::scalar::Scalar;
use crate::sums::{
    lemma_sum_first_term_last, lemma_sum_negated_backwards, lemma_sum_of_equal_terms,
    lemma_sum_splits, lemma_sum_telescopes, sum_of,
};
use vstd::prelude::*;
use vstd::std_specs::ops::AddSpec;

verus! {

/// The boundary walked from its `k`-th point on: the first `k` points are
/// moved to the end.
pub open spec fn rotated<T>(vertices: Seq<T>, k: int) -> Seq<T> {
    vertices.subrange(2 * k, vertices.len() as int) + vertices.subrange(0, 2 * k)
}

/// The boundary walked in the opposite direction: the points in reverse
/// order.
pub open spec fn reversed<T>(vertices: Seq<T>) -> Seq<T> {
    Seq::new(
        vertices.len(),
        |j: int|
            if j % 2 == 0 {
                vertices[vertices.len() - 2 - j]
            } else {
                vertices[vertices.len() - j]
            },
    )
}

/// A walk that starts one point later has the same cross products, the first
/// one last.
proof fn lemma_rotation_step(vertices: Seq<i64>)
    requires
        vertices.len() % 2 == 0,
        vertices.len() >= 2,
    ensures
        shoelace_value(rotated(vertices, 1)) == shoelace_value(vertices),
{
    let later = rotated(vertices, 1);
    let count = point_count_of(vertices.len());
    assert(later.len() == vertices.len());
    assert forall|i: int| 0 <= i < count - 1 implies #[trigger] cross_values(later)(i)
        == cross_values(vertices)(i + 1) by {
        lemma_edge_ends_in_next_point(later, i);
        lemma_edge_ends_in_next_point(vertices, i + 1);
    }
    assert(cross_values(later)(count - 1) == cross_values(vertices)(0)) by {
        lemma_edge_ends_in_next_point(later, count - 1);
        lemma_edge_ends_in_next_point(vertices, 0);
    }
    lemma_sum_first_term_last(cross_values(vertices), cross_values(later), (count - 1) as nat);
}

/// A walk that starts `k` points later has the same sum of cross products.
proof fn lemma_rotation_value(vertices: Seq<i64>, k: int)
    requires
        vertices.len() % 2 == 0,
        0 <= k <= point_count_of(vertices.len()),
    ensures
        shoelace_value(rotated(vertices, k)) == shoelace_value(vertices),
    decreases k,
{
    if k == 0 {
        assert(rotated(vertices, 0) =~= vertices);
    } else {
        lemma_rotation_value(vertices, k - 1);
        let before = rotated(vertices, k - 1);
        lemma_rotation_step(before);
        assert(rotated(before, 1) =~= rotated(vertices, k));
    }
}

/// The area does not depend on the point at which the walk along the boundary
/// starts.
pub proof fn lemma_area_rotation_invariant(vertices: Seq<i64>, k: int)
    requires
        vertices.len() % 2 == 0,
        0 <= k <= point_count_of(vertices.len()),
        area_defined(vertices),
        area_defined(rotated(vertices, k)),
    ensures
        area_of(rotated(vertices, k)) == area_of(vertices),
{
    lemma_rotation_value(vertices, k);
    lemma_lattice_area(vertices);
    lemma_lattice_area(rotated(vertices, k));
}

/// A walk in the opposite direction negates the sum of the cross products.
proof fn lemma_reversal_value(vertices: Seq<i64>)
    requires
        vertices.len() % 2 == 0,
    ensures
        shoelace_value(reversed(vertices)) == -shoelace_value(vertices),
{
    let back = reversed(vertices);
    let count = point_count_of(vertices.len());
    if count > 0 {
        let inner = |i: int| cross_values(vertices)(i);
        assert forall|i: int| 0 <= i < count - 1 implies #[trigger] cross_values(back)(i)
            == -inner(count - 2 - i) by {
            lemma_edge_ends_in_next_point(back, i);
            lemma_edge_ends_in_next_point(vertices, count - 2 - i);
            let e = edge_at(vertices, count - 2 - i);
            let f = edge_at(back, i);
            assert(f.x1 == e.x2 && f.y1 == e.y2 && f.x2 == e.x1 && f.y2 == e.y1);
        }
        assert(cross_values(back)(count - 1) == -cross_values(vertices)(count - 1)) by {
            lemma_edge_ends_in_next_point(back, count - 1);
            lemma_edge_ends_in_next_point(vertices, count - 1);
            let e = edge_at(vertices, count - 1);
            let f = edge_at(back, count - 1);
            assert(f.x1 == e.x2 && f.y1 == e.y2 && f.x2 == e.x1 && f.y2 == e.y1);
        }
        lemma_sum_negated_backwards(inner, cross_values(back), (count - 1) as nat);
        lemma_sum_of_equal_terms(inner, cross_values(vertices), (count - 1) as nat);
    }
}

/// The area does not depend on the direction in which the boundary is walked.
pub proof fn lemma_area_reversal_invariant(vertices: Seq<i64>)
    requires
        vertices.len() % 2 == 0,
        area_defined(vertices),
        area_defined(reversed(vertices)),
    ensures
        area_of(reversed(vertices)) == area_of(vertices),
{
    lemma_reversal_value(vertices);
    lemma_lattice_area(vertices);
    lemma_lattice_area(reversed(vertices));
}

/// The distance of a shift as an integer; an axis that stays is moved by zero.
pub open spec fn shift_value(shift: Option<i64>) -> int {
    match shift {
        Some(d) => d as int,
        None => 0,
    }
}

/// A polygon that is moved has the same sum of cross products.
proof fn lemma_moved_value(vertices: Seq<i64>, dx: Option<i64>, dy: Option<i64>)
    requires
        vertices.len() % 2 == 0,
        move_defined(vertices, dx, dy),
    ensures
        shoelace_value(moved(vertices, dx, dy)) == shoelace_value(vertices),
{
    let there = moved(vertices, dx, dy);
    let count = point_count_of(vertices.len());
    let len = vertices.len();
    let a = shift_value(dx);
    let b = shift_value(dy);
    let along_x = match dx {
        Some(d) => shifted_x(vertices, d),
        None => vertices,
    };
    assert(there.len() == len);
    assert forall|j: int| 0 <= j < len implies #[trigger] there[j] == vertices[j] + (if j % 2 == 0 {
        a
    } else {
        b
    }) by {
        if j % 2 == 0 {
            assert(holds_x(len, j));
            assert(!holds_y(len, j));
            if let Some(d) = dx {
                assert(vertices[j].add_req(d));
            }
        } else {
            assert(holds_y(len, j));
            assert(!holds_x(len, j));
            assert(along_x[j] == vertices[j]);
            if let Some(d) = dy {
                assert(along_x[j].add_req(d));
            }
        }
    }
    if count > 0 {
        let rise = |i: int| edge_at(vertices, i).y2 - edge_at(vertices, i).y1;
        let run = |i: int| edge_at(vertices, i).x1 - edge_at(vertices, i).x2;
        let height = |i: int| vertices[2 * i + 1] as int;
        let depth = |i: int| -vertices[2 * i];
        assert forall|i: int| 0 <= i < count implies #[trigger] cross_values(there)(i)
            == cross_values(vertices)(i) + a * rise(i) + b * run(i) by {
            lemma_edge_ends_in_next_point(there, i);
            lemma_edge_ends_in_next_point(vertices, i);
            let e = edge_at(vertices, i);
            let f = edge_at(there, i);
            assert(f.x1 == e.x1 + a && f.y1 == e.y1 + b && f.x2 == e.x2 + a && f.y2 == e.y2 + b);
            assert((e.x1 + a) * (e.y2 + b) - (e.x2 + a) * (e.y1 + b) == e.x1 * e.y2 - e.x2 * e.y1
                + a * (e.y2 - e.y1) + b * (e.x1 - e.x2)) by (nonlinear_arith);
        }
        lemma_sum_splits(cross_values(there), cross_values(vertices), a, rise, b, run, count);
        assert forall|i: int| 0 <= i < count - 1 implies #[trigger] rise(i) == height(i + 1)
            - height(i) by {
            lemma_edge_ends_in_next_point(vertices, i);
        }
        assert forall|i: int| 0 <= i < count - 1 implies #[trigger] run(i) == depth(i + 1) - depth(
            i,
        ) by {
            lemma_edge_ends_in_next_point(vertices, i);
        }
        lemma_sum_telescopes(height, rise, (count - 1) as nat);
        lemma_sum_telescopes(depth, run, (count - 1) as nat);
        lemma_edge_ends_in_next_point(vertices, count - 1);
        assert(sum_of(rise, count) == 0);
        assert(sum_of(run, count) == 0);
        assert(a * 0 == 0 && b * 0 == 0);
    }
}

/// The area does not depend on where the polygon lies: a polygon that is moved
/// along one axis or both keeps its area.
pub proof fn lemma_area_position_invariant(
    vertices: Seq<i64>,
    dx: Option<i64>,
    dy: Option<i64>,
)
    requires
        vertices.len() % 2 == 0,
        move_defined(vertices, dx, dy),
        area_defined(vertices),
        area_defined(moved(vertices, dx, dy)),
    ensures
        area_of(moved(vertices, dx, dy)) == area_of(vertices),
{
    lemma_moved_value(vertices, dx, dy);
    lemma_lattice_area(vertices);
    lemma_lattice_area(moved(vertices, dx, dy));
}

/// For a polygon without a negative coordinate, to supply the area of the
/// polygon is to supply nothing new: the centroid is the one that is found
/// without it. This holds of every scalar.
pub proof fn lemma_supplied_area_round_trip<T: Scalar>(vertices: Seq<T>)
    requires
        shift_of(min_x_of(vertices)) is None,
        shift_of(min_y_of(vertices)) is None,
    ensures
        centroid_of(vertices, Some(area_of(vertices))) == centroid_of(vertices, None),
{
}

/// On the integer lattice, to supply the area of the polygon is to supply
/// nothing new, also where the polygon has negative coordinates and is moved:
/// the centroid is the one that is found without it.
pub proof fn lemma_supplied_area_round_trip_lattice(vertices: Seq<i64>)
    requires
        vertices.len() % 2 == 0,
        area_defined(vertices),
        centroid_defined(vertices, None),
    ensures
        centroid_of(vertices, Some(area_of(vertices))) == centroid_of(vertices, None),
{
    let dx = shift_of(min_x_of(vertices));
    let dy = shift_of(min_y_of(vertices));
    lemma_area_position_invariant(vertices, dx, dy);
}

} // verus!
