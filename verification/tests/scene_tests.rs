use bezier_scene::curve::Point3;
use bezier_scene::scene::{animate_cube, oscillation_param, setup, EntityKind};

#[test]
fn setup_spawns_exactly_four_entities() {
    let scene = setup();
    assert_eq!(scene.entities.len(), 4);
    assert!(matches!(scene.entities[0].kind, EntityKind::Cube));
    assert!(scene.entities[0].curve.is_some());
    assert_eq!(scene.entities[0].translation, Point3::new(-6, 2, 0));
    match scene.entities[1].kind {
        EntityKind::PointLight { shadows_enabled, intensity, range } => {
            assert!(shadows_enabled);
            assert_eq!(intensity, 10_000_000);
            assert_eq!(range, 100);
        }
        _ => panic!("expected the point light"),
    }
    assert_eq!(scene.entities[1].translation, Point3::new(8, 16, 8));
    match scene.entities[2].kind {
        EntityKind::GroundPlane { size } => assert_eq!(size, 50),
        _ => panic!("expected the ground plane"),
    }
    match scene.entities[3].kind {
        EntityKind::Camera { target } => assert_eq!(target, Point3::new(0, 3, 0)),
        _ => panic!("expected the camera"),
    }
    assert_eq!(scene.entities[3].translation, Point3::new(0, 6, 12));
}

#[test]
fn oscillation_param_stays_in_unit_range() {
    assert_eq!(oscillation_param(0), 500_000);
    assert_eq!(oscillation_param(1_000_000), 1_000_000);
    assert_eq!(oscillation_param(-1_000_000), 0);
    assert_eq!(oscillation_param(-999_999), 0);
    assert_eq!(oscillation_param(999_999), 999_999);
    for s in [-1_000_000, -500_000, -1, 0, 1, 500_000, 1_000_000] {
        let t = oscillation_param(s);
        assert!(t <= 1_000_000);
    }
}

#[test]
fn animate_moves_cube_along_curve() {
    let mut scene = setup();
    // sine -1 gives t = 0: the cube sits at the first control point.
    let traces = animate_cube(&mut scene, -1_000_000);
    assert_eq!(scene.entities[0].translation, Point3::new(-6, 2, 0));
    assert_eq!(traces.len(), 1);
    assert_eq!(traces[0].len(), 50);
    // sine 1 gives t = 1: the cube sits at the last control point.
    animate_cube(&mut scene, 1_000_000);
    assert_eq!(scene.entities[0].translation, Point3::new(6, 2, 0));
    // Entities without a curve never move.
    assert_eq!(scene.entities[1].translation, Point3::new(8, 16, 8));
    assert_eq!(scene.entities[3].translation, Point3::new(0, 6, 12));
}

#[test]
fn animate_is_idempotent_for_a_fixed_time() {
    let mut a = setup();
    let mut b = setup();
    let traces_a = animate_cube(&mut a, 123_456);
    animate_cube(&mut b, 123_456);
    let traces_b = animate_cube(&mut b, 123_456);
    assert_eq!(a.entities[0].translation, b.entities[0].translation);
    assert_eq!(traces_a, traces_b);
}
