use bezier_scene::curve::{CubicBezier, Point3, SAMPLE_COUNT};

fn demo_curve() -> CubicBezier {
    CubicBezier::new(
        Point3::new(-6, 2, 0),
        Point3::new(12, 8, 0),
        Point3::new(-12, 8, 0),
        Point3::new(6, 2, 0),
    )
}

#[test]
fn position_at_endpoints_returns_control_points() {
    let c = demo_curve();
    assert_eq!(c.position(0, 49), Point3::new(-6, 2, 0));
    assert_eq!(c.position(49, 49), Point3::new(6, 2, 0));
    // A second denominator: the endpoints do not depend on the sampling grid.
    assert_eq!(c.position(0, 1_000_000), Point3::new(-6, 2, 0));
    assert_eq!(c.position(1_000_000, 1_000_000), Point3::new(6, 2, 0));
}

#[test]
fn position_midpoint_is_exact_floor() {
    let c = demo_curve();
    // At t = 1/2 the blend is (-6 + 36 - 36 + 6, 2 + 24 + 24 + 2, 0) / 8
    // = (0, 6.5, 0), floored to (0, 6, 0).
    assert_eq!(c.position(1, 2), Point3::new(0, 6, 0));
}

#[test]
fn position_floors_negative_values_downward() {
    let c = CubicBezier::new(
        Point3::new(-1, 0, 0),
        Point3::new(0, 0, 0),
        Point3::new(0, 0, 0),
        Point3::new(0, 0, 0),
    );
    // At t = 1/2 the x blend is -1/8, floored to -1.
    assert_eq!(c.position(1, 2), Point3::new(-1, 0, 0));
}

#[test]
fn position_handles_extreme_coordinates() {
    let big: i64 = 1_000_000_000;
    let c = CubicBezier::new(
        Point3::new(-big, big, -big),
        Point3::new(big, -big, big),
        Point3::new(-big, big, -big),
        Point3::new(big, -big, big),
    );
    assert_eq!(c.position(0, 1_000_000), Point3::new(-big, big, -big));
    assert_eq!(c.position(1_000_000, 1_000_000), Point3::new(big, -big, big));
    let mid = c.position(1, 2);
    assert!(mid.x.abs() <= big && mid.y.abs() <= big && mid.z.abs() <= big);
}

#[test]
fn polyline_has_exactly_fifty_points() {
    let c = demo_curve();
    let pts = c.sample_polyline();
    assert_eq!(pts.len(), SAMPLE_COUNT);
    assert_eq!(pts.len(), 50);
    assert_eq!(pts[0], Point3::new(-6, 2, 0));
    assert_eq!(pts[49], Point3::new(6, 2, 0));
}

#[test]
fn polyline_is_a_pure_function_of_the_curve() {
    let c = demo_curve();
    assert_eq!(c.sample_polyline(), c.sample_polyline());
}
