//! The Sutherland-Hodgman clip: what it computes, and the run that computes
//! it one measured segment at a time.

use crate::calculator::ClippingStrategy;
use crate::laws::collapsed_has_no_repeats;
use crate::line::Line;
use crate::point::Point;
use crate::polygon::{edge_at, edge_of, Polygon};
use crate::position::{Measurement, PointPosition, PointPositions};
use vstd::prelude::*;

verus! {

/// `points` with every run of consecutive equal points reduced to its first
/// point. Equal points that do not follow one another all stay.
pub open spec fn collapsed(points: Seq<Point>) -> Seq<Point>
    decreases points.len(),
{
    if points.len() == 0 {
        Seq::empty()
    } else {
        let kept = collapsed(points.drop_last());
        if kept.len() > 0 && kept.last().same(points.last()) {
            kept
        } else {
            kept.push(points.last())
        }
    }
}

/// The vertices that the first `k` segments of the cyclic list `vertexes`
/// contribute when clipped against `edge`, in order, each segment measured
/// by `measure`.
pub open spec fn swept(
    edge: Line,
    vertexes: Seq<Point>,
    k: nat,
    measure: spec_fn(Line, Line) -> Measurement,
) -> Seq<Point>
    decreases k,
{
    if k == 0 {
        Seq::empty()
    } else {
        let segment = edge_of(vertexes, k - 1);
        swept(edge, vertexes, (k - 1) as nat, measure) + measure(edge, segment).vertexes(
            edge,
            segment,
        )
    }
}

/// The cyclic list `vertexes` clipped against one `edge`.
pub open spec fn clipped_against(
    edge: Line,
    vertexes: Seq<Point>,
    measure: spec_fn(Line, Line) -> Measurement,
) -> Seq<Point> {
    swept(edge, vertexes, vertexes.len(), measure)
}

/// `input` clipped against the first `k` edges of `clip`, one after the
/// other.
pub open spec fn clipped_through(
    clip: Seq<Point>,
    k: nat,
    input: Seq<Point>,
    measure: spec_fn(Line, Line) -> Measurement,
) -> Seq<Point>
    decreases k,
{
    if k == 0 {
        input
    } else {
        clipped_against(
            edge_of(clip, k - 1),
            clipped_through(clip, (k - 1) as nat, input, measure),
            measure,
        )
    }
}

/// The polygon that a working list stands for: none if the list is empty,
/// else the list without its consecutive duplicates.
pub open spec fn polygon_of(vertexes: Seq<Point>) -> Option<Seq<Point>> {
    if vertexes.len() == 0 {
        None
    } else {
        Some(collapsed(vertexes))
    }
}

/// The polygon `input` clipped against every edge of the polygon `clip` in
/// turn: the part of `input` that lies inside `clip`, where `clip` is convex
/// and wound so that its interior is to the left of its edges.
pub open spec fn clipped(
    clip: Seq<Point>,
    input: Seq<Point>,
    measure: spec_fn(Line, Line) -> Measurement,
) -> Option<Seq<Point>> {
    polygon_of(clipped_through(clip, clip.len(), input, measure))
}

/// What a run needs measured next: a segment of the polygon that is being
/// clipped, against an edge of the clipping polygon.
#[derive(Clone, Copy, Debug)]
pub struct Probe {
    pub edge: Line,
    pub segment: Line,
}

/// The state of a run, as mathematics sees it.
pub struct Progress {
    /// The vertices of the clipping polygon.
    pub clip: Seq<Point>,
    /// How many edges of the clipping polygon have been applied in full.
    pub edge: nat,
    /// The working list: the input, clipped against those edges.
    pub current: Seq<Point>,
    /// How many segments of the working list have been clipped against the
    /// edge that is being applied.
    pub at: nat,
    /// What those segments have contributed.
    pub next: Seq<Point>,
}

impl Progress {
    /// A run is either over, with nothing half done, or waits for the
    /// measurement of a segment that exists.
    pub open spec fn wf(self) -> bool {
        &&& self.edge <= self.clip.len()
        &&& self.edge < self.clip.len() ==> self.at < self.current.len()
        &&& self.edge == self.clip.len() ==> self.at == 0 && self.next.len() == 0
    }

    /// Whether every edge of the clipping polygon has been applied.
    pub open spec fn finished(self) -> bool {
        self.edge >= self.clip.len()
    }

    /// What is to be measured next, in a run that is not finished.
    pub open spec fn probe(self) -> Probe {
        Probe {
            edge: edge_of(self.clip, self.edge as int),
            segment: edge_of(self.current, self.at as int),
        }
    }

    /// The state in which a run begins. With no vertex to clip, or no edge
    /// to clip against, it is finished at once.
    pub open spec fn begin(clip: Seq<Point>, input: Seq<Point>) -> Progress {
        Progress {
            clip,
            edge: if input.len() == 0 {
                clip.len()
            } else {
                0
            },
            current: input,
            at: 0,
            next: Seq::empty(),
        }
    }

    /// The state after the measurement of the pending probe has come in. The
    /// segment's vertices join the list that is being built. After the last
    /// segment that list becomes the working list and the next edge is
    /// taken up; once the working list is empty no edge can add to it, and
    /// the run is finished. A finished run stays as it is.
    pub open spec fn fed(self, measurement: Measurement) -> Progress {
        if self.finished() {
            self
        } else {
            let probe = self.probe();
            let next = self.next + measurement.vertexes(probe.edge, probe.segment);
            if self.at + 1 < self.current.len() {
                Progress {
                    clip: self.clip,
                    edge: self.edge,
                    current: self.current,
                    at: self.at + 1,
                    next,
                }
            } else {
                Progress {
                    clip: self.clip,
                    edge: if next.len() == 0 {
                        self.clip.len()
                    } else {
                        self.edge + 1
                    },
                    current: next,
                    at: 0,
                    next: Seq::empty(),
                }
            }
        }
    }

    /// The polygon that the working list stands for.
    pub open spec fn outcome(self) -> Option<Seq<Point>> {
        polygon_of(self.current)
    }

    /// The state in which the run ends when `measure` answers every probe.
    pub open spec fn driven(self, measure: spec_fn(Line, Line) -> Measurement) -> Progress
        decreases self.clip.len() - self.edge, self.current.len() - self.at,
        when self.wf()
    {
        if self.finished() {
            self
        } else {
            let probe = self.probe();
            self.fed(measure(probe.edge, probe.segment)).driven(measure)
        }
    }
}

/// The Sutherland-Hodgman strategy.
#[derive(Clone, Copy, Debug)]
pub struct SutherlandHodgman;

/// A copy of `points`.
fn copy_of(points: &Vec<Point>) -> (r: Vec<Point>)
    ensures
        r@ == points@,
{
    let mut copy: Vec<Point> = Vec::new();
    let n: usize = points.len();
    let mut i: usize = 0;
    while i < n
        invariant
            i <= n,
            n == points.len(),
            copy@ == points@.take(i as int),
        decreases n - i,
    {
        copy.push(points[i]);
        proof {
            assert(points@.take(i + 1) =~= points@.take(i as int).push(points@[i as int]));
        }
        i += 1;
    }
    proof {
        assert(points@.take(n as int) =~= points@);
    }
    copy
}

impl SutherlandHodgman {
    /// Removes every point that equals the point kept just before it, so that
    /// no two points that follow one another in the result are equal. Equal
    /// points that are apart from one another all stay.
    pub fn remove_duplicated_points(output_polygon: Vec<Point>) -> (r: Vec<Point>)
        ensures
            r@ == collapsed(output_polygon@),
            forall|i: int| 0 <= i < r@.len() - 1 ==> !(#[trigger] r@[i]).same(r@[i + 1]),
    {
        let mut unique_points: Vec<Point> = Vec::new();
        let n: usize = output_polygon.len();
        let mut i: usize = 0;
        while i < n
            invariant
                i <= n,
                n == output_polygon.len(),
                unique_points@ == collapsed(output_polygon@.take(i as int)),
            decreases n - i,
        {
            let point: Point = output_polygon[i];
            let kept: usize = unique_points.len();
            proof {
                assert(output_polygon@.take(i + 1).drop_last() =~= output_polygon@.take(i as int));
            }
            if kept == 0 || unique_points[kept - 1] != point {
                unique_points.push(point);
            }
            i += 1;
        }
        proof {
            assert(output_polygon@.take(n as int) =~= output_polygon@);
            collapsed_has_no_repeats(output_polygon@);
        }
        unique_points
    }
}

impl ClippingStrategy for SutherlandHodgman {
    type Run = Clipping;

    open spec fn begins(
        &self,
        clipping_polygon: Seq<Point>,
        input_polygon: Seq<Point>,
        run: Clipping,
    ) -> bool {
        run@ == Progress::begin(clipping_polygon, input_polygon)
    }

    /// Begins the clip: see [`Clipping::begin`].
    fn clip_polygon(&self, clipping_polygon: &Polygon, input_polygon: &Polygon) -> (run: Clipping) {
        Clipping::begin(clipping_polygon, input_polygon)
    }
}

/// A run of the clip: the input polygon on its way through the edges of the
/// clipping polygon.
///
/// The run asks for one measurement at a time ([`Clipping::pending`]), takes
/// it in ([`Clipping::supply`]) and, once nothing is pending, gives the clipped
/// polygon ([`Clipping::finish`]).
#[derive(Debug)]
pub struct Clipping {
    clip: Vec<Point>,
    edge: usize,
    current: Vec<Point>,
    at: usize,
    next: Vec<Point>,
}

impl View for Clipping {
    type V = Progress;

    closed spec fn view(&self) -> Progress {
        Progress {
            clip: self.clip@,
            edge: self.edge as nat,
            current: self.current@,
            at: self.at as nat,
            next: self.next@,
        }
    }
}

impl Clipping {
    #[verifier::type_invariant]
    spec fn well_formed(self) -> bool {
        self@.wf()
    }

    /// The run that clips `input_polygon` against `clipping_polygon`, before
    /// its first measurement. Both polygons are copied.
    pub fn begin(clipping_polygon: &Polygon, input_polygon: &Polygon) -> (r: Clipping)
        ensures
            r@ == Progress::begin(clipping_polygon@, input_polygon@),
            r@.wf(),
    {
        let clip: Vec<Point> = copy_of(&clipping_polygon.vertexes);
        let current: Vec<Point> = copy_of(&input_polygon.vertexes);
        let edge: usize = if current.len() == 0 {
            clip.len()
        } else {
            0
        };
        Clipping { clip, edge, current, at: 0, next: Vec::new() }
    }

    /// What is to be measured next, or nothing if the run is finished.
    pub fn pending(&self) -> (r: Option<Probe>)
        ensures
            self@.wf(),
            r == if self@.finished() {
                None
            } else {
                Some(self@.probe())
            },
    {
        proof {
            use_type_invariant(self);
        }
        if self.edge < self.clip.len() {
            Some(
                Probe {
                    edge: edge_at(&self.clip, self.edge),
                    segment: edge_at(&self.current, self.at),
                },
            )
        } else {
            None
        }
    }

    /// Takes in the measurement of the pending probe: see [`Progress::fed`].
    pub fn supply(self, measurement: &Measurement) -> (r: Clipping)
        ensures
            r@ == self@.fed(*measurement),
            r@.wf(),
    {
        proof {
            use_type_invariant(&self);
        }
        let Clipping { clip, edge, current, at, next } = self;
        let mut next: Vec<Point> = next;
        if edge >= clip.len() {
            return Clipping { clip, edge, current, at, next };
        }
        let line: Line = edge_at(&clip, edge);
        let segment: Line = edge_at(&current, at);
        let start: PointPosition = PointPosition::is_inside(segment.start, &measurement.start);
        let end: PointPosition = PointPosition::is_inside(segment.end, &measurement.end);
        let mut vertexes: Vec<Point> = PointPositions::new(start, end).calculate_vertexes(
            &line,
            &measurement.solution,
        );
        next.append(&mut vertexes);
        if at + 1 < current.len() {
            Clipping { clip, edge, current, at: at + 1, next }
        } else {
            let edge: usize = if next.len() == 0 {
                clip.len()
            } else {
                edge + 1
            };
            Clipping { clip, edge, current: next, at: 0, next: Vec::new() }
        }
    }

    /// The polygon that the run has arrived at: none if nothing is left of
    /// the input, else what is left, consecutive duplicates removed. In a run
    /// that is not finished this is the input clipped against the edges that
    /// have been applied in full.
    pub fn finish(self) -> (r: Option<Polygon>)
        ensures
            match r {
                Some(polygon) => self@.outcome() == Some(polygon@),
                None => self@.outcome().is_none(),
            },
    {
        let Clipping { clip, edge, current, at, next } = self;
        if current.is_empty() {
            return None;
        }
        let unique_points: Vec<Point> = SutherlandHodgman::remove_duplicated_points(current);
        Some(Polygon::new(unique_points))
    }
}

} // verus!
