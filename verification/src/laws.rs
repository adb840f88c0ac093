//! What holds of the clip whatever the polygons and the measurements are.

use crate::line::Line;
use crate::point::Point;
use crate::polygon::{edge_of, turned};
use crate::position::Measurement;
use crate::scalar::Scalar;
use crate::sutherland_hodgman::{clipped, clipped_through, collapsed, swept, Progress};
use vstd::arithmetic::div_mod::{
    lemma_add_mod_noop, lemma_mod_pos_bound, lemma_mod_twice, lemma_small_mod,
};
use vstd::prelude::*;

verus! {

/// In a collapsed list no point equals the point that follows it.
pub proof fn collapsed_has_no_repeats(points: Seq<Point>)
    ensures
        forall|i: int|
            0 <= i < collapsed(points).len() - 1 ==> !(#[trigger] collapsed(points)[i]).same(
                collapsed(points)[i + 1],
            ),
    decreases points.len(),
{
    if points.len() > 0 {
        let kept = collapsed(points.drop_last());
        let all = collapsed(points);
        collapsed_has_no_repeats(points.drop_last());
        assert forall|i: int| 0 <= i < all.len() - 1 implies !(#[trigger] all[i]).same(
            all[i + 1],
        ) by {
            if i < kept.len() - 1 {
                assert(all[i] == kept[i] && all[i + 1] == kept[i + 1]);
            } else {
                assert(all[i] == kept.last() && all[i + 1] == points.last());
            }
        }
    }
}

/// A list in which no point equals the point that follows it collapses to
/// itself: equal points that are apart from one another all stay.
pub proof fn collapsed_keeps_separated(points: Seq<Point>)
    requires
        forall|i: int| 0 <= i < points.len() - 1 ==> !(#[trigger] points[i]).same(points[i + 1]),
    ensures
        collapsed(points) == points,
    decreases points.len(),
{
    if points.len() > 0 {
        let front = points.drop_last();
        assert forall|i: int| 0 <= i < front.len() - 1 implies !(#[trigger] front[i]).same(
            front[i + 1],
        ) by {
            assert(front[i] == points[i]);
        }
        collapsed_keeps_separated(front);
        if front.len() > 0 {
            assert(front.last() == points[points.len() - 2]);
        }
        assert(front.push(points.last()) =~= points);
    }
}

/// Collapsing removes points and adds none: a collapsed list is never longer
/// than the list it comes from, it starts with the same point, and each of
/// its points is a point of that list.
pub proof fn collapsed_is_drawn_from(points: Seq<Point>)
    ensures
        collapsed(points).len() <= points.len(),
        points.len() > 0 ==> collapsed(points).len() > 0 && collapsed(points)[0] == points[0],
        forall|i: int|
            0 <= i < collapsed(points).len() ==> points.contains(#[trigger] collapsed(points)[i]),
    decreases points.len(),
{
    if points.len() > 0 {
        let front = points.drop_last();
        collapsed_is_drawn_from(front);
        assert forall|i: int| 0 <= i < collapsed(points).len() implies points.contains(
            #[trigger] collapsed(points)[i],
        ) by {
            let p = collapsed(points)[i];
            if i < collapsed(front).len() {
                assert(front.contains(p));
                let j = choose|j: int| 0 <= j < front.len() && front[j] == p;
                assert(points[j] == p);
            } else {
                assert(p == points[points.len() - 1]);
            }
        }
    }
}

/// A working list that is empty stays empty, whatever edge it is clipped
/// against.
proof fn nothing_stays_nothing(
    clip: Seq<Point>,
    j: nat,
    k: nat,
    input: Seq<Point>,
    measure: spec_fn(Line, Line) -> Measurement,
)
    requires
        j <= k,
        clipped_through(clip, j, input, measure).len() == 0,
    ensures
        clipped_through(clip, k, input, measure).len() == 0,
    decreases k,
{
    if j < k {
        nothing_stays_nothing(clip, j, (k - 1) as nat, input, measure);
    }
}

/// The state of a run whose probes `measure` has answered so far: the
/// working list is the input clipped against the edges applied, and the list
/// being built holds what the segments clipped so far contribute.
spec fn on_track(
    state: Progress,
    input: Seq<Point>,
    measure: spec_fn(Line, Line) -> Measurement,
) -> bool {
    &&& state.wf()
    &&& state.current == clipped_through(state.clip, state.edge, input, measure)
    &&& !state.finished() ==> state.next == swept(
        edge_of(state.clip, state.edge as int),
        state.current,
        state.at,
        measure,
    )
}

proof fn supply_stays_on_track(
    state: Progress,
    input: Seq<Point>,
    measure: spec_fn(Line, Line) -> Measurement,
)
    requires
        on_track(state, input, measure),
        !state.finished(),
    ensures
        on_track(
            state.fed(measure(state.probe().edge, state.probe().segment)),
            input,
            measure,
        ),
        state.fed(measure(state.probe().edge, state.probe().segment)).clip == state.clip,
{
    let probe = state.probe();
    let after = state.fed(measure(probe.edge, probe.segment));
    let grown = state.next + measure(probe.edge, probe.segment).vertexes(
        probe.edge,
        probe.segment,
    );
    assert(grown == swept(probe.edge, state.current, state.at + 1, measure));
    if state.at + 1 < state.current.len() {
    } else {
        assert(grown == clipped_through(state.clip, state.edge + 1, input, measure));
        if grown.len() == 0 {
            nothing_stays_nothing(state.clip, state.edge + 1, state.clip.len(), input, measure);
            assert(after.current =~= clipped_through(
                state.clip,
                state.clip.len(),
                input,
                measure,
            ));
        }
    }
}

proof fn driven_stays_on_track(
    state: Progress,
    input: Seq<Point>,
    measure: spec_fn(Line, Line) -> Measurement,
)
    requires
        on_track(state, input, measure),
    ensures
        on_track(state.driven(measure), input, measure),
        state.driven(measure).finished(),
        state.driven(measure).clip == state.clip,
    decreases state.clip.len() - state.edge, state.current.len() - state.at,
{
    if !state.finished() {
        let probe = state.probe();
        supply_stays_on_track(state, input, measure);
        driven_stays_on_track(state.fed(measure(probe.edge, probe.segment)), input, measure);
    }
}

/// A run that begins with two polygons and has every probe answered by
/// `measure` comes to an end, and ends with the clipped polygon.
pub proof fn run_ends_with_clipped_polygon(
    clip: Seq<Point>,
    input: Seq<Point>,
    measure: spec_fn(Line, Line) -> Measurement,
)
    ensures
        Progress::begin(clip, input).wf(),
        Progress::begin(clip, input).driven(measure).finished(),
        Progress::begin(clip, input).driven(measure).outcome() == clipped(clip, input, measure),
{
    let start = Progress::begin(clip, input);
    if input.len() == 0 {
        nothing_stays_nothing(clip, 0, clip.len(), input, measure);
        assert(start.current =~= clipped_through(clip, clip.len(), input, measure));
    }
    driven_stays_on_track(start, input, measure);
}

/// Whether `measure` finds both ends of every segment of `vertexes` inside
/// every edge of `clip`.
pub open spec fn measured_inside(
    clip: Seq<Point>,
    vertexes: Seq<Point>,
    measure: spec_fn(Line, Line) -> Measurement,
) -> bool {
    forall|i: int, j: int|
        #![trigger edge_of(clip, i), edge_of(vertexes, j)]
        0 <= i < clip.len() && 0 <= j < vertexes.len() ==> {
            let measurement = measure(edge_of(clip, i), edge_of(vertexes, j));
            Line::admits(measurement.start) && Line::admits(measurement.end)
        }
}

proof fn step_around(a: int, b: int, n: int)
    requires
        n > 0,
    ensures
        ((a % n) + b) % n == (a + b) % n,
{
    lemma_add_mod_noop(a, b, n);
    lemma_add_mod_noop(a % n, b, n);
    lemma_mod_twice(a, n);
}

/// The segment that leaves place `j` of a turned list is a segment of the
/// list itself.
proof fn turned_keeps_segments(vertexes: Seq<Point>, by: nat, j: int)
    requires
        0 <= j < vertexes.len(),
    ensures
        0 <= (j + by) % (vertexes.len() as int) < vertexes.len(),
        edge_of(turned(vertexes, by), j) == edge_of(
            vertexes,
            (j + by) % (vertexes.len() as int),
        ),
        edge_of(turned(vertexes, by), j).end == turned(vertexes, by + 1)[j],
{
    let n = vertexes.len() as int;
    step_around(j + by, 1, n);
    step_around(j + 1, by as int, n);
    assert(((j + 1) % n + by) % n == (j + by + 1) % n);
    assert(((j + by) % n + 1) % n == (j + by + 1) % n);
}

/// Clipped against an edge inside which all of it is measured, a list comes
/// out turned by one place.
proof fn inside_sweep_turns(
    clip: Seq<Point>,
    i: int,
    vertexes: Seq<Point>,
    by: nat,
    k: nat,
    measure: spec_fn(Line, Line) -> Measurement,
)
    requires
        0 <= i < clip.len(),
        measured_inside(clip, vertexes, measure),
        k <= vertexes.len(),
    ensures
        swept(edge_of(clip, i), turned(vertexes, by), k, measure) == turned(
            vertexes,
            by + 1,
        ).take(k as int),
    decreases k,
{
    let edge = edge_of(clip, i);
    let list = turned(vertexes, by);
    if k == 0 {
        assert(swept(edge, list, k, measure) =~= turned(vertexes, by + 1).take(0));
    } else {
        inside_sweep_turns(clip, i, vertexes, by, (k - 1) as nat, measure);
        let j = k - 1;
        turned_keeps_segments(vertexes, by, j);
        let segment = edge_of(list, j);
        let at = (j + by) % (vertexes.len() as int);
        assert(segment == edge_of(vertexes, at));
        let measurement = measure(edge_of(clip, i), edge_of(vertexes, at));
        assert(Line::admits(measurement.start) && Line::admits(measurement.end));
        assert(measurement.vertexes(edge, segment) =~= seq![segment.end]);
        assert(swept(edge, list, k, measure) =~= turned(vertexes, by + 1).take(k as int));
    }
}

proof fn inside_clip_turns(
    clip: Seq<Point>,
    k: nat,
    input: Seq<Point>,
    measure: spec_fn(Line, Line) -> Measurement,
)
    requires
        k <= clip.len(),
        input.len() > 0,
        measured_inside(clip, input, measure),
    ensures
        clipped_through(clip, k, input, measure) == turned(input, k),
    decreases k,
{
    if k == 0 {
        assert forall|j: int| 0 <= j < input.len() implies turned(input, 0)[j] == input[j] by {
            lemma_small_mod(j as nat, input.len());
        }
        assert(turned(input, 0) =~= input);
    } else {
        inside_clip_turns(clip, (k - 1) as nat, input, measure);
        inside_sweep_turns(clip, k - 1, input, (k - 1) as nat, input.len(), measure);
        assert(turned(input, k).take(input.len() as int) =~= turned(input, k));
    }
}

/// A polygon that is measured inside every edge of the clipping polygon
/// comes back from the clip whole: the same vertices in the same cyclic
/// order, begun one place later for each edge, consecutive duplicates
/// removed.
pub proof fn polygon_inside_comes_back(
    clip: Seq<Point>,
    input: Seq<Point>,
    measure: spec_fn(Line, Line) -> Measurement,
)
    requires
        input.len() > 0,
        measured_inside(clip, input, measure),
    ensures
        clipped(clip, input, measure) == Some(collapsed(turned(input, clip.len()))),
{
    inside_clip_turns(clip, clip.len(), input, measure);
}

/// A segment contributes nothing but its end, and that only if the end is
/// measured inside, and its crossing with the clip edge.
pub proof fn contribution_is_end_or_crossing(
    measurement: Measurement,
    edge: Line,
    segment: Line,
    v: Point,
)
    requires
        measurement.vertexes(edge, segment).contains(v),
    ensures
        (v == segment.end && Line::admits(measurement.end)) || edge.crossing(
            segment,
            measurement.solution,
        ) == Some(v),
{
    let vertexes = measurement.vertexes(edge, segment);
    let at = choose|at: int| 0 <= at < vertexes.len() && vertexes[at] == v;
    assert(vertexes[at] == v);
}

/// Whether `v` is the point in which one of the first `k` edges of `clip`
/// crosses some segment, on the solution that `measure` gives for the two.
pub open spec fn is_crossing(
    clip: Seq<Point>,
    k: nat,
    v: Point,
    measure: spec_fn(Line, Line) -> Measurement,
) -> bool {
    exists|i: int, segment: Line|
        0 <= i < k && #[trigger] edge_of(clip, i).crossing(
            segment,
            measure(edge_of(clip, i), segment).solution,
        ) == Some(v)
}

/// Each vertex that a sweep puts out is named by a segment of the list that
/// was swept.
proof fn swept_vertex_has_segment(
    edge: Line,
    vertexes: Seq<Point>,
    k: nat,
    measure: spec_fn(Line, Line) -> Measurement,
    v: Point,
) -> (j: int)
    requires
        k <= vertexes.len(),
        swept(edge, vertexes, k, measure).contains(v),
    ensures
        0 <= j < k,
        measure(edge, edge_of(vertexes, j)).vertexes(edge, edge_of(vertexes, j)).contains(v),
    decreases k,
{
    let all = swept(edge, vertexes, k, measure);
    let at = choose|at: int| 0 <= at < all.len() && all[at] == v;
    assert(k > 0);
    let before = swept(edge, vertexes, (k - 1) as nat, measure);
    let segment = edge_of(vertexes, k - 1);
    let last = measure(edge, segment).vertexes(edge, segment);
    if at < before.len() {
        assert(before[at] == v);
        swept_vertex_has_segment(edge, vertexes, (k - 1) as nat, measure, v)
    } else {
        assert(last[at - before.len()] == v);
        k - 1
    }
}

proof fn through_vertices_are_given_or_crossings(
    clip: Seq<Point>,
    k: nat,
    input: Seq<Point>,
    measure: spec_fn(Line, Line) -> Measurement,
    v: Point,
)
    requires
        k <= clip.len(),
        clipped_through(clip, k, input, measure).contains(v),
    ensures
        input.contains(v) || is_crossing(clip, k, v, measure),
    decreases k,
{
    if k > 0 {
        let edge = edge_of(clip, k - 1);
        let list = clipped_through(clip, (k - 1) as nat, input, measure);
        let j = swept_vertex_has_segment(edge, list, list.len(), measure, v);
        let segment = edge_of(list, j);
        contribution_is_end_or_crossing(measure(edge, segment), edge, segment, v);
        if edge.crossing(segment, measure(edge, segment).solution) == Some(v) {
            assert(is_crossing(clip, k, v, measure));
        } else {
            lemma_mod_pos_bound(j + 1, list.len() as int);
            assert(list.contains(v));
            through_vertices_are_given_or_crossings(clip, (k - 1) as nat, input, measure, v);
            if is_crossing(clip, (k - 1) as nat, v, measure) {
                let (i, other) = choose|i: int, other: Line|
                    0 <= i < k - 1 && #[trigger] edge_of(clip, i).crossing(
                        other,
                        measure(edge_of(clip, i), other).solution,
                    ) == Some(v);
                assert(is_crossing(clip, k, v, measure));
            }
        }
    }
}

/// The clip invents no vertex: each vertex of the clipped polygon is a
/// vertex of the input polygon, or the point in which an edge of the
/// clipping polygon crosses a segment.
pub proof fn clipped_vertices_are_given_or_crossings(
    clip: Seq<Point>,
    input: Seq<Point>,
    measure: spec_fn(Line, Line) -> Measurement,
    v: Point,
)
    requires
        clipped(clip, input, measure).is_some(),
        clipped(clip, input, measure).unwrap().contains(v),
    ensures
        input.contains(v) || is_crossing(clip, clip.len(), v, measure),
{
    let list = clipped_through(clip, clip.len(), input, measure);
    collapsed_is_drawn_from(list);
    let polygon = collapsed(list);
    let at = choose|at: int| 0 <= at < polygon.len() && polygon[at] == v;
    assert(list.contains(polygon[at]));
    through_vertices_are_given_or_crossings(clip, clip.len(), input, measure, v);
}

/// Whether the measurements agree with the cross products `side`, and the
/// crossings lie where exact arithmetic puts them: on the edge that cuts, and
/// between the ends of the segment that is cut, so that a crossing is inside
/// every line that both ends are inside.
pub open spec fn is_exact(
    measure: spec_fn(Line, Line) -> Measurement,
    side: spec_fn(Line, Point) -> Scalar,
) -> bool {
    &&& forall|edge: Line, segment: Line|
        {
            &&& (#[trigger] measure(edge, segment)).start == side(edge, segment.start)
            &&& measure(edge, segment).end == side(edge, segment.end)
        }
    &&& forall|edge: Line, segment: Line|
        match edge.crossing(segment, (#[trigger] measure(edge, segment)).solution) {
            Some(p) => Line::admits(side(edge, p)),
            None => true,
        }
    &&& forall|edge: Line, segment: Line, other: Line|
        #![trigger measure(edge, segment), side(other, segment.end)]
        match edge.crossing(segment, measure(edge, segment).solution) {
            Some(p) => Line::admits(side(other, segment.start)) && Line::admits(
                side(other, segment.end),
            ) ==> Line::admits(side(other, p)),
            None => true,
        }
}

proof fn through_vertices_are_inside(
    clip: Seq<Point>,
    k: nat,
    input: Seq<Point>,
    measure: spec_fn(Line, Line) -> Measurement,
    side: spec_fn(Line, Point) -> Scalar,
    v: Point,
    i: int,
)
    requires
        is_exact(measure, side),
        0 <= i < k <= clip.len(),
        clipped_through(clip, k, input, measure).contains(v),
    ensures
        Line::admits(side(edge_of(clip, i), v)),
    decreases k,
{
    let edge = edge_of(clip, k - 1);
    let list = clipped_through(clip, (k - 1) as nat, input, measure);
    let j = swept_vertex_has_segment(edge, list, list.len(), measure, v);
    let segment = edge_of(list, j);
    let measurement = measure(edge, segment);
    contribution_is_end_or_crossing(measurement, edge, segment, v);
    lemma_mod_pos_bound(j + 1, list.len() as int);
    assert(list.contains(segment.start));
    assert(list.contains(segment.end));
    if i == k - 1 {
        if edge.crossing(segment, measurement.solution) == Some(v) {
        } else {
            assert(measurement.end == side(edge, segment.end));
        }
    } else {
        through_vertices_are_inside(clip, (k - 1) as nat, input, measure, side, segment.end, i);
        if edge.crossing(segment, measurement.solution) == Some(v) {
            through_vertices_are_inside(
                clip,
                (k - 1) as nat,
                input,
                measure,
                side,
                segment.start,
                i,
            );
        }
    }
}

/// Containment, where the arithmetic is exact: every vertex of the clipped
/// polygon is inside every edge of the clipping polygon.
///
/// Rounded arithmetic may put a crossing a hair off the edge that cuts, and
/// then the vertex is outside that edge; the law holds of the measurements
/// that put no crossing off its lines.
pub proof fn clipped_vertices_are_inside(
    clip: Seq<Point>,
    input: Seq<Point>,
    measure: spec_fn(Line, Line) -> Measurement,
    side: spec_fn(Line, Point) -> Scalar,
    v: Point,
    i: int,
)
    requires
        is_exact(measure, side),
        clipped(clip, input, measure).is_some(),
        clipped(clip, input, measure).unwrap().contains(v),
        0 <= i < clip.len(),
    ensures
        Line::admits(side(edge_of(clip, i), v)),
{
    let list = clipped_through(clip, clip.len(), input, measure);
    collapsed_is_drawn_from(list);
    let polygon = collapsed(list);
    let at = choose|at: int| 0 <= at < polygon.len() && polygon[at] == v;
    assert(list.contains(polygon[at]));
    through_vertices_are_inside(clip, clip.len(), input, measure, side, v, i);
}

} // verus!
