use geo::Intersects;
use geo_validity::coord::{check_coord_is_not_finite, components_equal, Coord};
use geo_validity::geometry::Geometry;
use geo_validity::linestring::{check_too_few_points, count_distinct_points, LineString};
use geo_validity::multilinestring::MultiLineString;
use geo_validity::multipoint::{MultiPoint, Point};
use geo_validity::predicates::{
    determinant_is_collinear, orientation_from_determinant, self_intersection_from_crossings,
    Orientation,
};
use geo_validity::problem::{
    CoordinatePosition, GeometryPosition, Problem, ProblemAtPosition, ProblemPosition,
};

fn c(x: f64, y: f64) -> Coord {
    Coord::from_bits(x.to_bits(), y.to_bits())
}

fn coords(pts: &[(f64, f64)]) -> Vec<Coord> {
    pts.iter().map(|&(x, y)| c(x, y)).collect()
}

fn crossing_table(pts: &[(f64, f64)]) -> Vec<Vec<bool>> {
    let ls: geo_types::LineString<f64> = pts.to_vec().into();
    let lines: Vec<geo_types::Line<f64>> = ls.lines().collect();
    lines
        .iter()
        .map(|a| lines.iter().map(|b| a.intersects(b)).collect())
        .collect()
}

fn orientation(p0: (f64, f64), p1: (f64, f64), p2: (f64, f64)) -> Option<Orientation> {
    let det = robust::orient2d(
        robust::Coord { x: p0.0, y: p0.1 },
        robust::Coord { x: p1.0, y: p1.1 },
        robust::Coord { x: p2.0, y: p2.1 },
    );
    orientation_from_determinant(det.to_bits())
}

#[test]
fn valid_iff_no_report_on_every_kind() {
    let geoms = vec![
        Geometry::Point(Point::new(1f64.to_bits(), 2f64.to_bits())),
        Geometry::Point(Point::new(f64::NAN.to_bits(), 2f64.to_bits())),
        Geometry::LineString(LineString(coords(&[(0., 0.), (1., 1.)]))),
        Geometry::LineString(LineString(coords(&[(0., 0.)]))),
        Geometry::LineString(LineString(coords(&[(0., 0.), (f64::INFINITY, 1.)]))),
        Geometry::MultiPoint(MultiPoint(vec![])),
        Geometry::MultiPoint(MultiPoint(vec![Point::new(0, f64::NEG_INFINITY.to_bits())])),
        Geometry::MultiLineString(MultiLineString(vec![])),
        Geometry::MultiLineString(MultiLineString(vec![LineString(vec![])])),
    ];
    let expected = [true, false, true, false, false, true, false, true, false];
    for (g, e) in geoms.iter().zip(expected.iter()) {
        assert_eq!(g.is_valid(), *e);
        assert_eq!(g.is_valid(), g.explain_invalidity().is_none());
    }
}

#[test]
fn point_not_finite_is_reported_at_the_point() {
    let p = Point::new(f64::NAN.to_bits(), 0);
    assert!(!p.is_valid());
    assert_eq!(
        p.explain_invalidity(),
        Some(vec![ProblemAtPosition(Problem::NotFinite, ProblemPosition::Point)])
    );
}

#[test]
fn too_few_points_reported_once_before_not_finite() {
    let ls = LineString(coords(&[(f64::NAN, 0.)]));
    assert_eq!(
        ls.explain_invalidity(),
        Some(vec![
            ProblemAtPosition(Problem::TooFewPoints, ProblemPosition::LineString(CoordinatePosition(0))),
            ProblemAtPosition(Problem::NotFinite, ProblemPosition::LineString(CoordinatePosition(0))),
        ])
    );
}

#[test]
fn every_not_finite_coordinate_is_reported() {
    let ls = LineString(coords(&[(0., 0.), (1., f64::NAN), (2., 2.), (f64::INFINITY, 3.)]));
    assert!(!ls.is_valid());
    assert_eq!(
        ls.explain_invalidity(),
        Some(vec![
            ProblemAtPosition(Problem::NotFinite, ProblemPosition::LineString(CoordinatePosition(1))),
            ProblemAtPosition(Problem::NotFinite, ProblemPosition::LineString(CoordinatePosition(3))),
        ])
    );
}

#[test]
fn multi_line_string_report_concatenates_members() {
    let mls = MultiLineString(vec![
        LineString(coords(&[(0., 0.)])),
        LineString(coords(&[(0., 0.), (1., 1.)])),
        LineString(coords(&[(0., f64::NAN), (1., 1.), (f64::INFINITY, 1.)])),
    ]);
    assert_eq!(
        mls.explain_invalidity(),
        Some(vec![
            ProblemAtPosition(
                Problem::TooFewPoints,
                ProblemPosition::MultiLineString(GeometryPosition(0), CoordinatePosition(0))
            ),
            ProblemAtPosition(
                Problem::NotFinite,
                ProblemPosition::MultiLineString(GeometryPosition(2), CoordinatePosition(0))
            ),
            ProblemAtPosition(
                Problem::NotFinite,
                ProblemPosition::MultiLineString(GeometryPosition(2), CoordinatePosition(2))
            ),
        ])
    );
}

#[test]
fn report_is_the_same_on_repeated_calls() {
    let mp = MultiPoint(vec![
        Point::new(f64::NAN.to_bits(), 0),
        Point::new(0, 0),
        Point::new(0, f64::INFINITY.to_bits()),
    ]);
    let first = mp.explain_invalidity();
    let second = mp.explain_invalidity();
    assert_eq!(first, second);
    assert_eq!(first.map(|v| v.len()), Some(2));
}

#[test]
fn distinct_points_collapse_runs_only() {
    assert_eq!(count_distinct_points(&vec![]), 0);
    assert_eq!(count_distinct_points(&coords(&[(0., 0.), (0., 0.), (1., 0.), (0., 0.)])), 3);
    assert_eq!(count_distinct_points(&coords(&[(0., 0.), (-0., 0.)])), 1);
    assert_eq!(count_distinct_points(&coords(&[(f64::NAN, 0.), (f64::NAN, 0.)])), 2);
    assert!(components_equal(0f64.to_bits(), (-0f64).to_bits()));
    assert!(!components_equal(f64::NAN.to_bits(), f64::NAN.to_bits()));
    assert!(components_equal(f64::INFINITY.to_bits(), f64::INFINITY.to_bits()));
}

#[test]
fn ring_needs_four_distinct_points() {
    let triangle = LineString(coords(&[(0., 0.), (1., 0.), (0., 1.), (0., 0.)]));
    assert!(!check_too_few_points(&triangle, true));
    assert!(!check_too_few_points(&triangle, false));
    let flat = LineString(coords(&[(0., 0.), (1., 0.), (0., 0.)]));
    assert!(check_too_few_points(&flat, true));
    assert!(!check_too_few_points(&flat, false));
}

#[test]
fn not_finite_coordinates() {
    assert!(!check_coord_is_not_finite(&c(1., -2.5)));
    assert!(check_coord_is_not_finite(&c(f64::NEG_INFINITY, 0.)));
    assert!(check_coord_is_not_finite(&c(0., f64::NAN)));
    assert!(!check_coord_is_not_finite(&c(f64::MAX, f64::MIN_POSITIVE)));
}

#[test]
fn triangle_ring_does_not_self_intersect() {
    let pts = [(0., 0.), (1., 0.), (0., 1.), (0., 0.)];
    assert!(!self_intersection_from_crossings(&coords(&pts), &crossing_table(&pts)));
}

#[test]
fn figure_eight_ring_self_intersects() {
    let pts = [(0., 0.), (1., 1.), (1., 0.), (0., 1.), (0., 0.)];
    assert!(self_intersection_from_crossings(&coords(&pts), &crossing_table(&pts)));
}

#[test]
fn short_sequences_have_no_self_intersection() {
    assert!(!self_intersection_from_crossings(&vec![], &vec![]));
    assert!(!self_intersection_from_crossings(&coords(&[(0., 0.)]), &vec![]));
}

#[test]
fn near_collinear_orientation_is_exact() {
    let below_round_off = 2.0 + 1e-17;
    assert_eq!(orientation((0., 0.), (1., 1.), (2., below_round_off)), Some(Orientation::Collinear));
    let next_up = f64::from_bits(2f64.to_bits() + 1);
    assert_eq!(orientation((0., 0.), (1., 1.), (2., next_up)), Some(Orientation::CounterClockwise));
    let next_down = f64::from_bits(2f64.to_bits() - 1);
    assert_eq!(orientation((0., 0.), (1., 1.), (2., next_down)), Some(Orientation::Clockwise));
    assert_eq!(
        orientation((0.1, 0.1), (0.2, 0.2), (0.3, 0.3 + f64::EPSILON)),
        orientation((0.1, 0.1), (0.2, 0.2), (0.3, 0.3 + f64::EPSILON))
    );
}

#[test]
fn determinant_classification() {
    assert!(determinant_is_collinear(0f64.to_bits()));
    assert!(determinant_is_collinear((-0f64).to_bits()));
    assert!(!determinant_is_collinear(1e-300f64.to_bits()));
    assert_eq!(orientation_from_determinant((-3.5f64).to_bits()), Some(Orientation::Clockwise));
    assert_eq!(orientation_from_determinant(f64::NAN.to_bits()), None);
}
