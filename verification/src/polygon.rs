//! Polygons as cyclic vertex lists.

use crate::line::Line;
use crate::point::Point;
use vstd::prelude::*;

verus! {

/// The edge that leaves vertex `i` of a cyclic vertex list: it ends in the
/// next vertex, and the one that leaves the last vertex ends in the first.
pub open spec fn edge_of(vertexes: Seq<Point>, i: int) -> Line
    recommends
        0 <= i < vertexes.len(),
{
    Line { start: vertexes[i], end: vertexes[(i + 1) % (vertexes.len() as int)] }
}

/// The cyclic vertex list `vertexes`, begun `by` places later: the same
/// vertices in the same cyclic order.
pub open spec fn turned(vertexes: Seq<Point>, by: nat) -> Seq<Point> {
    Seq::new(vertexes.len(), |j: int| vertexes[(j + by) % (vertexes.len() as int)])
}

/// The edge that leaves vertex `i` of `vertexes`.
pub fn edge_at(vertexes: &Vec<Point>, i: usize) -> (r: Line)
    requires
        i < vertexes.len(),
    ensures
        r == edge_of(vertexes@, i as int),
{
    let n: usize = vertexes.len();
    Line::new(vertexes[i], vertexes[(i + 1) % n])
}

/// A polygon: its vertices in order, the last one joined to the first.
///
/// Nothing is checked on construction. A list of fewer than three vertices is
/// accepted and clipped like any other.
#[derive(Debug)]
pub struct Polygon {
    pub vertexes: Vec<Point>,
}

impl View for Polygon {
    type V = Seq<Point>;

    open spec fn view(&self) -> Seq<Point> {
        self.vertexes@
    }
}

impl Polygon {
    /// The polygon with these vertices.
    pub fn new(vertexes: Vec<Point>) -> (r: Polygon)
        ensures
            r@ == vertexes@,
    {
        Polygon { vertexes }
    }

    /// The number of vertices, which is the number of edges too.
    pub fn len(&self) -> (r: usize)
        ensures
            r == self@.len(),
    {
        self.vertexes.len()
    }

    /// Edge `i`: from vertex `i` to vertex `(i + 1) mod n`.
    pub fn edge(&self, i: usize) -> (r: Line)
        requires
            i < self@.len(),
        ensures
            r == edge_of(self@, i as int),
    {
        edge_at(&self.vertexes, i)
    }
}

} // verus!
