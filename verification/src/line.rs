//! Directed segments: the side test and the acceptance of a crossing point.

use crate::point::Point;
use crate::scalar::Scalar;
use vstd::prelude::*;

verus! {

/// A directed segment from `start` to `end`.
///
/// The direction matters: the inside of a line is the closed half-plane to
/// the left of the ray from `start` through `end`.
#[derive(Clone, Copy, Debug)]
pub struct Line {
    pub start: Point,
    pub end: Point,
}

/// The solution of the pair of equations `a1 x + b1 y = c1`, `a2 x + b2 y = c2`
/// that two lines satisfy: the determinant `a1 b2 - a2 b1` of the system, and
/// the coordinates obtained by dividing by it.
///
/// Where the determinant is zero the coordinates carry no meaning and are
/// never read.
#[derive(Clone, Copy, Debug)]
pub struct Solution {
    pub determinant: Scalar,
    pub x: Scalar,
    pub y: Scalar,
}

impl Solution {
    /// The point that solves the system.
    pub open spec fn point(self) -> Point {
        Point { x: self.x, y: self.y }
    }

    /// Whether the determinant equals zero, so that the two lines are
    /// parallel or collinear.
    pub open spec fn is_singular(self) -> bool {
        self.determinant.same(Scalar { bits: 0 })
    }
}

impl Line {
    /// Whether a cross product of that value puts its point on this side of
    /// the line that counts as inside: on the line or to its left.
    pub open spec fn admits(cross_product: Scalar) -> bool {
        (Scalar { bits: 0 }).no_more_than(cross_product)
    }

    /// Whether `p` lies in the bounding box of the segment, its border
    /// included.
    pub open spec fn spans(self, p: Point) -> bool {
        &&& p.x.between(self.start.x, self.end.x)
        &&& p.y.between(self.start.y, self.end.y)
    }

    /// The point in which this segment and `other` cross, given the solution
    /// of their equations: none where the system is singular, none where the
    /// solving point leaves the bounding box of either segment.
    pub open spec fn crossing(self, other: Line, solution: Solution) -> Option<Point> {
        if !solution.is_singular() && self.spans(solution.point()) && other.spans(
            solution.point(),
        ) {
            Some(solution.point())
        } else {
            None
        }
    }

    /// The segment from `start` to `end`.
    pub fn new(start: Point, end: Point) -> (r: Line)
        ensures
            r == (Line { start, end }),
    {
        Line { start, end }
    }

    /// The half-plane test, on the cross product of the line's direction with
    /// the vector from its start to the point in question: inside if and only
    /// if that product is zero or positive.
    pub fn is_inside(cross_product: &Scalar) -> (r: bool)
        ensures
            r == Line::admits(*cross_product),
    {
        cross_product.at_least(&Scalar::zero())
    }

    fn covers(&self, p: &Point) -> (r: bool)
        ensures
            r == self.spans(*p),
    {
        p.x.within(&self.start.x, &self.end.x) && p.y.within(&self.start.y, &self.end.y)
    }

    /// The intersection of this segment with `other`, decided on the solution
    /// of their two equations.
    ///
    /// A determinant that equals zero means no intersection, whatever the
    /// segments are. Otherwise the solving point is the intersection if it
    /// lies within the bounding boxes of both segments, borders included, and
    /// there is none if it does not.
    pub fn intersection(&self, other: &Line, solution: &Solution) -> (r: Option<Point>)
        ensures
            r == self.crossing(*other, *solution),
    {
        if solution.determinant == Scalar::zero() {
            return None;
        }
        let p: Point = Point::new(solution.x, solution.y);
        if self.covers(&p) && other.covers(&p) {
            Some(p)
        } else {
            None
        }
    }
}

} // verus!
