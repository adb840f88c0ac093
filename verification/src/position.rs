//! Classification of a segment's end points against a clip edge, and the
//! vertices that the segment contributes.

use crate::line::{Line, Solution};
use crate::point::Point;
use crate::scalar::Scalar;
use vstd::prelude::*;

verus! {

/// A point together with the side of a clip edge on which it lies.
#[derive(Clone, Copy, Debug)]
pub enum PointPosition {
    Inside(Point),
    Outside(Point),
}

impl PointPosition {
    /// The position of `point`, whose cross product with the clip edge is
    /// `cross_product`.
    pub open spec fn of(point: Point, cross_product: Scalar) -> PointPosition {
        if Line::admits(cross_product) {
            PointPosition::Inside(point)
        } else {
            PointPosition::Outside(point)
        }
    }

    /// The point, whatever its side.
    pub open spec fn point(self) -> Point {
        match self {
            PointPosition::Inside(p) => p,
            PointPosition::Outside(p) => p,
        }
    }

    /// Classifies `point` by its cross product with the clip edge.
    pub fn is_inside(point: Point, cross_product: &Scalar) -> (r: PointPosition)
        ensures
            r == PointPosition::of(point, *cross_product),
    {
        if Line::is_inside(cross_product) {
            PointPosition::Inside(point)
        } else {
            PointPosition::Outside(point)
        }
    }
}

/// Zero or one vertex: the crossing point, if there is one.
pub open spec fn crossing_vertexes(crossing: Option<Point>) -> Seq<Point> {
    match crossing {
        Some(p) => seq![p],
        None => Seq::empty(),
    }
}

/// The positions of the two ends of a directed segment of the polygon that
/// is being clipped.
#[derive(Clone, Copy, Debug)]
pub struct PointPositions {
    pub start: PointPosition,
    pub end: PointPosition,
}

impl PointPositions {
    /// The vertices that the segment contributes to the clipped polygon:
    ///
    /// | start   | end     | vertices                          |
    /// |---------|---------|-----------------------------------|
    /// | inside  | inside  | the end                           |
    /// | inside  | outside | the crossing, if any              |
    /// | outside | inside  | the crossing, if any, then the end|
    /// | outside | outside | none                              |
    ///
    /// The crossing is that of the clip edge `line` with the segment, decided
    /// on `solution`.
    pub open spec fn vertexes(self, line: Line, solution: Solution) -> Seq<Point> {
        match (self.start, self.end) {
            (PointPosition::Inside(_), PointPosition::Inside(end)) => seq![end],
            (PointPosition::Inside(start), PointPosition::Outside(end)) => crossing_vertexes(
                line.crossing(Line { start, end }, solution),
            ),
            (PointPosition::Outside(start), PointPosition::Inside(end)) => crossing_vertexes(
                line.crossing(Line { start, end }, solution),
            ).push(end),
            (PointPosition::Outside(_), PointPosition::Outside(_)) => Seq::empty(),
        }
    }

    /// The pair of positions of a segment's start and end.
    pub fn new(start: PointPosition, end: PointPosition) -> (r: PointPositions)
        ensures
            r == (PointPositions { start, end }),
    {
        PointPositions { start, end }
    }

    /// The vertices that the segment contributes, in order: see
    /// [`PointPositions::vertexes`]. A crossing that does not exist is
    /// skipped in silence.
    pub fn calculate_vertexes(self, line: &Line, solution: &Solution) -> (r: Vec<Point>)
        ensures
            r@ == self.vertexes(*line, *solution),
    {
        let mut vertexes: Vec<Point> = Vec::new();
        match (self.start, self.end) {
            (PointPosition::Inside(_), PointPosition::Inside(end)) => {
                vertexes.push(end);
            },
            (PointPosition::Inside(start), PointPosition::Outside(end)) => {
                Self::calculate_intersection(line, &Line::new(start, end), solution, &mut vertexes);
            },
            (PointPosition::Outside(start), PointPosition::Inside(end)) => {
                let intersection_line: Line = Line::new(start, end);
                Self::calculate_intersection(line, &intersection_line, solution, &mut vertexes);
                vertexes.push(intersection_line.end);
            },
            (PointPosition::Outside(_), PointPosition::Outside(_)) => {},
        }
        vertexes
    }

    /// Appends to `vertexes` the point in which `line` and
    /// `intersection_line` cross, if they do.
    pub fn calculate_intersection(
        line: &Line,
        intersection_line: &Line,
        solution: &Solution,
        vertexes: &mut Vec<Point>,
    )
        ensures
            final(vertexes)@ == old(vertexes)@ + crossing_vertexes(
                line.crossing(*intersection_line, *solution),
            ),
    {
        let intersection: Option<Point> = line.intersection(intersection_line, solution);
        if let Some(intersection) = intersection {
            vertexes.push(intersection);
        }
    }
}

/// What the arithmetic yields for one segment of the polygon that is being
/// clipped, taken against one clip edge.
#[derive(Clone, Copy, Debug)]
pub struct Measurement {
    /// The cross product of the clip edge with the segment's start.
    pub start: Scalar,
    /// The cross product of the clip edge with the segment's end.
    pub end: Scalar,
    /// The solution of the equations of the clip edge and of the segment, in
    /// that order.
    pub solution: Solution,
}

impl Measurement {
    /// The vertices that `segment` contributes when clipped against `edge`,
    /// this being their measurement.
    pub open spec fn vertexes(self, edge: Line, segment: Line) -> Seq<Point> {
        (PointPositions {
            start: PointPosition::of(segment.start, self.start),
            end: PointPosition::of(segment.end, self.end),
        }).vertexes(edge, self.solution)
    }
}

} // verus!
