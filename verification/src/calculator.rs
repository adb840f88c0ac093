//! The strategy interface and the calculator that callers hold.

use crate::point::Point;
use crate::polygon::Polygon;
use vstd::prelude::*;

verus! {

/// A way to clip one polygon against another.
///
/// A strategy decides; it does no arithmetic. So a clip is not done in one
/// call: `clip_polygon` begins it, and the run that comes back says what it
/// needs measured and takes the measurements in.
pub trait ClippingStrategy {
    /// A clip of this strategy while it is under way.
    type Run;

    /// Whether `run` is the state in which the clip of `input_polygon`
    /// against `clipping_polygon` begins.
    spec fn begins(
        &self,
        clipping_polygon: Seq<Point>,
        input_polygon: Seq<Point>,
        run: Self::Run,
    ) -> bool;

    /// Begins to clip `input_polygon` against `clipping_polygon`. Neither
    /// polygon is changed, and the run keeps no reference to them.
    fn clip_polygon(&self, clipping_polygon: &Polygon, input_polygon: &Polygon) -> (run: Self::Run)
        ensures
            self.begins(clipping_polygon@, input_polygon@, run),
    ;
}

/// Holds the strategy that was chosen and hands every clip on to it, so that
/// callers need not name the strategy where they clip.
pub struct PolygonClippingCalculator<'a, C: ClippingStrategy> {
    strategy: &'a C,
}

impl<'a, C: ClippingStrategy> PolygonClippingCalculator<'a, C> {
    /// The strategy that this calculator hands on to.
    pub closed spec fn strategy(&self) -> &'a C {
        self.strategy
    }

    /// A calculator that clips by `strategy`.
    pub fn new(strategy: &'a C) -> (r: Self)
        ensures
            r.strategy() == strategy,
    {
        Self { strategy }
    }

    /// Forwards to the strategy, the arguments in the order given: the first
    /// polygon is the one that clips, the second the one that is clipped.
    pub fn clip_polygon(&self, polygon: &Polygon, clipping_polygon: &Polygon) -> (run: C::Run)
        ensures
            self.strategy().begins(polygon@, clipping_polygon@, run),
    {
        self.strategy.clip_polygon(polygon, clipping_polygon)
    }
}

} // verus!
