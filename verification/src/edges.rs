//! The boundary of a polygon as a closed chain of edges.
use vstd::arithmetic::div_mod::{lemma_mod_add_multiples_vanish, lemma_small_mod};
use vstd::prelude::*;

verus! {

/// One edge of the boundary, from the point `(x1, y1)` to the point `(x2, y2)`.
#[derive(Debug)]
pub struct Edge<T> {
    pub x1: T,
    pub y1: T,
    pub x2: T,
    pub y2: T,
}

/// The number of points that a flat sequence of `len` coordinates holds.
pub open spec fn point_count_of(len: nat) -> nat {
    len / 2
}

/// The `i`-th edge of the boundary: it leaves the `i`-th point and ends in the
/// next one, which for the last point is the first one again.
pub open spec fn edge_at<T>(vertices: Seq<T>, i: int) -> Edge<T> {
    let n = vertices.len() as int;
    Edge {
        x1: vertices[2 * i],
        y1: vertices[2 * i + 1],
        x2: vertices[(2 * i + 2) % n],
        y2: vertices[(2 * i + 3) % n],
    }
}

/// A position that runs at most one step past the end of a sequence of `n`
/// items wraps around to its start.
proof fn lemma_wrap(j: int, n: int)
    requires
        0 <= j <= n + 1,
        2 <= n,
    ensures
        j % n == (if j < n {
            j
        } else {
            j - n
        }),
{
    if j < n {
        lemma_small_mod(j as nat, n as nat);
    } else {
        lemma_small_mod((j - n) as nat, n as nat);
        lemma_mod_add_multiples_vanish(j - n, n);
    }
}

/// The position in a flat sequence of `len` coordinates at which the point
/// after the `i`-th point starts: the first point follows the last one.
pub open spec fn next_point(len: nat, i: int) -> int {
    if 2 * i + 2 < len {
        2 * i + 2
    } else {
        0
    }
}

/// In a sequence of whole points, every edge ends where the next point is
/// stored, and the last edge ends in the first point.
pub proof fn lemma_edge_ends_in_next_point<T>(vertices: Seq<T>, i: int)
    requires
        vertices.len() % 2 == 0,
        0 <= i < point_count_of(vertices.len()),
    ensures
        edge_at(vertices, i).x2 == vertices[next_point(vertices.len(), i)],
        edge_at(vertices, i).y2 == vertices[next_point(vertices.len(), i) + 1],
{
    lemma_wrap(2 * i + 2, vertices.len() as int);
    lemma_wrap(2 * i + 3, vertices.len() as int);
}

/// The number of points, and so of edges, in a flat vertex sequence.
pub fn point_count<T>(vertices: &Vec<T>) -> (count: usize)
    ensures
        count == point_count_of(vertices@.len()),
{
    vertices.len() / 2
}

/// Reads the `i`-th edge of the boundary.
pub fn edge<T: Copy>(vertices: &Vec<T>, i: usize) -> (e: Edge<T>)
    requires
        i < point_count_of(vertices@.len()),
    ensures
        e == edge_at(vertices@, i as int),
{
    let n = vertices.len();
    let start: usize = 2 * i;
    let next: usize = if start + 2 == n {
        0
    } else {
        start + 2
    };
    let after: usize = if next + 1 == n {
        0
    } else {
        next + 1
    };
    proof {
        lemma_wrap(start + 2, n as int);
        lemma_wrap(start + 3, n as int);
    }
    Edge { x1: vertices[start], y1: vertices[start + 1], x2: vertices[next], y2: vertices[after] }
}

} // verus!
