use polygon_clipping::calculator::{ClippingStrategy, PolygonClippingCalculator};
use polygon_clipping::line::{Line, Solution};
use polygon_clipping::point::Point;
use polygon_clipping::polygon::Polygon;
use polygon_clipping::position::Measurement;
use polygon_clipping::scalar::Scalar;
use polygon_clipping::sutherland_hodgman::{Clipping, Probe, SutherlandHodgman};

fn scalar(value: f64) -> Scalar {
    Scalar::from_bits(value.to_bits())
}

fn point(x: f64, y: f64) -> Point {
    Point::new(scalar(x), scalar(y))
}

fn coordinates(point: &Point) -> (f64, f64) {
    (f64::from_bits(point.x.to_bits()), f64::from_bits(point.y.to_bits()))
}

fn polygon(coordinates: &[(f64, f64)]) -> Polygon {
    Polygon::new(coordinates.iter().map(|c| point(c.0, c.1)).collect())
}

fn vertexes(polygon: &Polygon) -> Vec<(f64, f64)> {
    polygon.vertexes.iter().map(coordinates).collect()
}

fn ends(line: &Line) -> ((f64, f64), (f64, f64)) {
    (coordinates(&line.start), coordinates(&line.end))
}

/// The cross product of the line's direction with the vector from its start
/// to the point.
fn cross_product(line: &Line, point: &Point) -> f64 {
    let (sx, sy) = coordinates(&line.start);
    let (ex, ey) = coordinates(&line.end);
    let (px, py) = coordinates(point);
    (ex - sx) * (py - sy) - (ey - sy) * (px - sx)
}

/// The equations of two lines, solved.
fn solve(line: &Line, other: &Line) -> Solution {
    let (sx, sy) = coordinates(&line.start);
    let (ex, ey) = coordinates(&line.end);
    let (osx, osy) = coordinates(&other.start);
    let (oex, oey) = coordinates(&other.end);
    let a1 = ey - sy;
    let b1 = sx - ex;
    let c1 = a1 * sx + b1 * sy;
    let a2 = oey - osy;
    let b2 = osx - oex;
    let c2 = a2 * osx + b2 * osy;
    let determinant = a1 * b2 - a2 * b1;
    Solution {
        determinant: scalar(determinant),
        x: scalar((b2 * c1 - b1 * c2) / determinant),
        y: scalar((a1 * c2 - a2 * c1) / determinant),
    }
}

fn measure(probe: &Probe) -> Measurement {
    Measurement {
        start: scalar(cross_product(&probe.edge, &probe.segment.start)),
        end: scalar(cross_product(&probe.edge, &probe.segment.end)),
        solution: solve(&probe.edge, &probe.segment),
    }
}

fn drive(mut run: Clipping) -> Option<Vec<(f64, f64)>> {
    while let Some(probe) = run.pending() {
        run = run.supply(&measure(&probe));
    }
    run.finish().map(|clipped| vertexes(&clipped))
}

fn clip(clipping: &[(f64, f64)], input: &[(f64, f64)]) -> Option<Vec<(f64, f64)>> {
    drive(SutherlandHodgman.clip_polygon(&polygon(clipping), &polygon(input)))
}

fn reversed(coordinates: &[(f64, f64)]) -> Vec<(f64, f64)> {
    coordinates.iter().rev().copied().collect()
}

fn inside_every_edge(clipping: &[(f64, f64)], vertex: (f64, f64)) -> bool {
    let clipping = polygon(clipping);
    (0..clipping.len()).all(|i| {
        Line::is_inside(&scalar(cross_product(&clipping.edge(i), &point(vertex.0, vertex.1))))
    })
}

const SQUARE: [(f64, f64); 4] = [(150.0, 150.0), (200.0, 150.0), (200.0, 200.0), (150.0, 200.0)];

const TRIANGLE: [(f64, f64); 3] = [(100.0, 150.0), (200.0, 250.0), (300.0, 200.0)];

const UNIT_SQUARE: [(f64, f64); 4] = [(0.0, 0.0), (1.0, 0.0), (1.0, 1.0), (0.0, 1.0)];

const FAR_TRIANGLE: [(f64, f64); 3] = [(10.0, 10.0), (11.0, 10.0), (10.0, 11.0)];

const BIG_SQUARE: [(f64, f64); 4] = [(0.0, 0.0), (10.0, 0.0), (10.0, 10.0), (0.0, 10.0)];

#[test]
fn the_cross_product_of_chosen_points() {
    let edge = Line::new(point(150.0, 150.0), point(200.0, 150.0));
    assert_eq!(cross_product(&edge, &point(100.0, 150.0)), 0.0);
    assert_eq!(cross_product(&edge, &point(200.0, 250.0)), 5000.0);
    assert_eq!(cross_product(&edge, &point(160.0, 140.0)), -500.0);
}

#[test]
fn disjoint_polygons_give_no_polygon() {
    assert_eq!(clip(&FAR_TRIANGLE, &UNIT_SQUARE), None);
    assert_eq!(clip(&UNIT_SQUARE, &FAR_TRIANGLE), None);
}

#[test]
fn the_triangle_clipped_by_the_square() {
    let clipped = clip(&SQUARE, &TRIANGLE);
    assert_eq!(
        clipped,
        Some(vec![(150.0, 200.0), (200.0, 200.0), (200.0, 175.0), (150.0, 162.5)])
    );
}

#[test]
fn the_calculator_clips_by_its_first_polygon() {
    let strategy = SutherlandHodgman;
    let calculator = PolygonClippingCalculator::new(&strategy);
    let clipped = drive(calculator.clip_polygon(&polygon(&SQUARE), &polygon(&TRIANGLE)));
    assert_eq!(
        clipped,
        Some(vec![(150.0, 200.0), (200.0, 200.0), (200.0, 175.0), (150.0, 162.5)])
    );
    assert_eq!(clipped, clip(&SQUARE, &TRIANGLE));
    let exchanged = drive(calculator.clip_polygon(&polygon(&TRIANGLE), &polygon(&SQUARE)));
    assert_eq!(exchanged, clip(&TRIANGLE, &SQUARE));
}

#[test]
fn partial_overlap_gives_vertices_inside_every_clip_edge() {
    let clipped = clip(&SQUARE, &TRIANGLE).unwrap();
    assert!(!clipped.is_empty());
    for vertex in &clipped {
        assert!(inside_every_edge(&SQUARE, *vertex), "{vertex:?}");
    }
}

#[test]
fn partial_overlap_gives_only_given_vertices_and_crossings() {
    let clipped = clip(&SQUARE, &TRIANGLE).unwrap();
    let square = polygon(&SQUARE);
    let triangle = polygon(&TRIANGLE);
    let mut allowed: Vec<(f64, f64)> = SQUARE.to_vec();
    allowed.extend(TRIANGLE);
    for i in 0..square.len() {
        for j in 0..triangle.len() {
            let edge = square.edge(i);
            let segment = triangle.edge(j);
            if let Some(crossing) = edge.intersection(&segment, &solve(&edge, &segment)) {
                allowed.push(coordinates(&crossing));
            }
        }
    }
    for vertex in &clipped {
        assert!(allowed.contains(vertex), "{vertex:?}");
    }
}

#[test]
fn the_square_clipped_by_the_clockwise_triangle_is_nothing() {
    assert_eq!(clip(&TRIANGLE, &SQUARE), None);
}

#[test]
fn the_square_clipped_by_the_triangle_wound_to_the_left() {
    let clipped = clip(&reversed(&TRIANGLE), &SQUARE);
    assert_eq!(
        clipped,
        Some(vec![(150.0, 200.0), (150.0, 162.5), (200.0, 175.0), (200.0, 200.0)])
    );
    for vertex in clipped.unwrap() {
        assert!(inside_every_edge(&reversed(&TRIANGLE), vertex), "{vertex:?}");
    }
}

#[test]
fn reversing_the_clip_polygon_changes_the_result() {
    assert!(clip(&SQUARE, &TRIANGLE).is_some());
    assert_eq!(clip(&reversed(&SQUARE), &TRIANGLE), None);
    assert_eq!(clip(&TRIANGLE, &SQUARE), None);
    assert!(clip(&reversed(&TRIANGLE), &SQUARE).is_some());
}

#[test]
fn a_polygon_inside_the_clip_polygon_comes_back() {
    let small = [(2.0, 2.0), (4.0, 2.0), (4.0, 4.0), (2.0, 4.0)];
    assert_eq!(clip(&BIG_SQUARE, &small), Some(small.to_vec()));
    let triangle = [(2.0, 2.0), (4.0, 2.0), (3.0, 4.0)];
    assert_eq!(clip(&BIG_SQUARE, &triangle), Some(vec![(4.0, 2.0), (3.0, 4.0), (2.0, 2.0)]));
    assert_eq!(clip(&BIG_SQUARE, &BIG_SQUARE), Some(BIG_SQUARE.to_vec()));
}

#[test]
fn a_polygon_inside_comes_back_without_its_consecutive_duplicates() {
    let doubled = [(2.0, 2.0), (2.0, 2.0), (4.0, 2.0), (4.0, 4.0), (4.0, 4.0), (2.0, 4.0)];
    assert_eq!(
        clip(&BIG_SQUARE, &doubled),
        Some(vec![(4.0, 4.0), (2.0, 4.0), (2.0, 2.0), (4.0, 2.0), (4.0, 4.0)])
    );
}

#[test]
fn rounding_can_put_a_crossing_outside_an_edge() {
    let clipping = [(1.0, 7.0), (1.0, 4.0), (2.0, 9.0)];
    let input = [(7.0, 7.0), (6.0, 3.0), (1.0, 7.0)];
    let clipped = clip(&clipping, &input).unwrap();
    assert_eq!(clipped, vec![(1.0, 7.0), (1.6, 7.0), (1.5172413793103448, 6.586206896551724)]);
    let edge = polygon(&clipping).edge(1);
    assert_eq!(cross_product(&edge, &point(1.6, 7.0)), -4.440892098500626e-16);
    assert!(!inside_every_edge(&clipping, (1.6, 7.0)));
}

#[test]
fn no_input_gives_no_polygon() {
    assert_eq!(clip(&SQUARE, &[]), None);
    assert_eq!(clip(&[], &[]), None);
    let run = SutherlandHodgman.clip_polygon(&polygon(&SQUARE), &polygon(&[]));
    assert!(run.pending().is_none());
}

#[test]
fn no_clip_edge_gives_the_input_back() {
    assert_eq!(clip(&[], &TRIANGLE), Some(TRIANGLE.to_vec()));
    let doubled = [(1.0, 1.0), (1.0, 1.0), (2.0, 2.0)];
    assert_eq!(clip(&[], &doubled), Some(vec![(1.0, 1.0), (2.0, 2.0)]));
    let run = SutherlandHodgman.clip_polygon(&polygon(&[]), &polygon(&TRIANGLE));
    assert!(run.pending().is_none());
}

#[test]
fn a_clip_polygon_of_one_vertex_has_one_edge_to_itself() {
    let run = SutherlandHodgman.clip_polygon(&polygon(&[(5.0, 5.0)]), &polygon(&TRIANGLE));
    let probe = run.pending().unwrap();
    assert_eq!(ends(&probe.edge), ((5.0, 5.0), (5.0, 5.0)));
    assert_eq!(
        clip(&[(5.0, 5.0)], &TRIANGLE),
        Some(vec![(200.0, 250.0), (300.0, 200.0), (100.0, 150.0)])
    );
}

#[test]
fn a_clip_polygon_of_two_vertices_has_two_edges() {
    let clipping = [(0.0, 0.0), (10.0, 0.0)];
    let above = [(1.0, 1.0), (2.0, 1.0), (2.0, 2.0)];
    assert_eq!(clip(&clipping, &above), None);
    let on = [(1.0, 0.0), (2.0, 0.0), (3.0, 0.0)];
    assert_eq!(clip(&clipping, &on), Some(vec![(3.0, 0.0), (1.0, 0.0), (2.0, 0.0)]));
}

#[test]
fn an_input_of_one_vertex_has_one_segment_to_itself() {
    let run = SutherlandHodgman.clip_polygon(&polygon(&BIG_SQUARE), &polygon(&[(5.0, 5.0)]));
    let probe = run.pending().unwrap();
    assert_eq!(ends(&probe.segment), ((5.0, 5.0), (5.0, 5.0)));
    assert_eq!(clip(&BIG_SQUARE, &[(5.0, 5.0)]), Some(vec![(5.0, 5.0)]));
    assert_eq!(clip(&BIG_SQUARE, &[(50.0, 5.0)]), None);
}

#[test]
fn the_probes_come_edge_by_edge_and_segment_by_segment() {
    let mut run = SutherlandHodgman.clip_polygon(&polygon(&SQUARE), &polygon(&TRIANGLE));
    let mut asked = Vec::new();
    while let Some(probe) = run.pending() {
        asked.push((ends(&probe.edge), ends(&probe.segment)));
        run = run.supply(&measure(&probe));
    }
    let a = (100.0, 150.0);
    let b = (200.0, 250.0);
    let c = (300.0, 200.0);
    let first = ((150.0, 150.0), (200.0, 150.0));
    let second = ((200.0, 150.0), (200.0, 200.0));
    assert_eq!(asked.len(), 3 + 3 + 3 + 4);
    assert_eq!(asked[0], (first, (a, b)));
    assert_eq!(asked[1], (first, (b, c)));
    assert_eq!(asked[2], (first, (c, a)));
    assert_eq!(asked[3], (second, (b, c)));
    assert_eq!(asked[4], (second, (c, a)));
    assert_eq!(asked[5], (second, (a, b)));
    assert_eq!(asked[6].0, ((200.0, 200.0), (150.0, 200.0)));
    assert_eq!(asked[6].1, ((200.0, 175.0), a));
    assert_eq!(asked[9].0, ((150.0, 200.0), (150.0, 150.0)));
    assert_eq!(asked[12].1, ((200.0, 175.0), a));
}

#[test]
fn a_run_stops_asking_once_nothing_is_left() {
    let mut run = SutherlandHodgman.clip_polygon(&polygon(&UNIT_SQUARE), &polygon(&FAR_TRIANGLE));
    let mut asked = 0;
    while let Some(probe) = run.pending() {
        asked += 1;
        run = run.supply(&measure(&probe));
    }
    assert_eq!(asked, 3 + 3);
    assert!(run.finish().is_none());
}

#[test]
fn a_finished_run_takes_nothing_in() {
    let mut run = SutherlandHodgman.clip_polygon(&polygon(&BIG_SQUARE), &polygon(&[(5.0, 5.0)]));
    while let Some(probe) = run.pending() {
        run = run.supply(&measure(&probe));
    }
    let outside = Measurement {
        start: scalar(-1.0),
        end: scalar(-1.0),
        solution: Solution { determinant: scalar(0.0), x: scalar(0.0), y: scalar(0.0) },
    };
    let run = run.supply(&outside).supply(&outside);
    assert!(run.pending().is_none());
    assert_eq!(run.finish().map(|clipped| vertexes(&clipped)), Some(vec![(5.0, 5.0)]));
}

#[test]
fn a_run_that_is_under_way_holds_the_input_clipped_so_far() {
    let begun = SutherlandHodgman.clip_polygon(&polygon(&SQUARE), &polygon(&TRIANGLE));
    assert_eq!(begun.finish().map(|clipped| vertexes(&clipped)), Some(TRIANGLE.to_vec()));
    let mut run = SutherlandHodgman.clip_polygon(&polygon(&SQUARE), &polygon(&TRIANGLE));
    for _ in 0..4 {
        let probe = run.pending().unwrap();
        run = run.supply(&measure(&probe));
    }
    assert_eq!(
        run.finish().map(|clipped| vertexes(&clipped)),
        Some(vec![(200.0, 250.0), (300.0, 200.0), (100.0, 150.0)])
    );
}

#[test]
fn the_run_decides_on_the_measurements_alone() {
    let inside = Measurement {
        start: scalar(1.0),
        end: scalar(0.0),
        solution: Solution { determinant: scalar(0.0), x: scalar(0.0), y: scalar(0.0) },
    };
    let mut run = SutherlandHodgman.clip_polygon(&polygon(&FAR_TRIANGLE), &polygon(&UNIT_SQUARE));
    while run.pending().is_some() {
        run = run.supply(&inside);
    }
    assert_eq!(
        run.finish().map(|clipped| vertexes(&clipped)),
        Some(vec![(0.0, 1.0), (0.0, 0.0), (1.0, 0.0), (1.0, 1.0)])
    );
}

#[test]
fn the_polygons_are_not_changed() {
    let clipping = polygon(&SQUARE);
    let input = polygon(&TRIANGLE);
    let clipped = drive(SutherlandHodgman.clip_polygon(&clipping, &input));
    assert!(clipped.is_some());
    assert_eq!(vertexes(&clipping), SQUARE.to_vec());
    assert_eq!(vertexes(&input), TRIANGLE.to_vec());
}
