use flightmodel::airfoil::{AirfoilOrientation, AirfoilPosition, Side};
use flightmodel::curve::CurveError;
use flightmodel::plane::{build_plane, tick};
use flightmodel::plane_spec::PlaneSpec;
use flightmodel::vec3::{Pose, Vec3};

fn identity_pose() -> Pose {
    Pose {
        translation: Vec3 { x: 0, y: 0, z: 0 },
        x_axis: Vec3 { x: 1_000_000, y: 0, z: 0 },
        y_axis: Vec3 { x: 0, y: 1_000_000, z: 0 },
        z_axis: Vec3 { x: 0, y: 0, z: 1_000_000 },
    }
}

#[test]
fn default_design_has_the_reference_numbers() {
    let spec = PlaneSpec::default();
    assert_eq!(spec.thrust, 500_000_000);
    assert_eq!(spec.fuselage.size, Vec3 { x: 1_120_000, y: 2_000_000, z: 5_300_000 });
    assert_eq!(spec.fuselage.mass, 100_000_000);
    assert_eq!(spec.wings.size, Vec3 { x: 5_500_000, y: 200_000, z: 1_500_000 });
    assert_eq!(spec.wings.lift_coefficient_curve.len(), 6);
    assert_eq!(spec.wings.lift_coefficient_curve[2], (350_000, 0));
    assert_eq!(spec.wings.lift_coefficient_curve[3], (1_400_000, 10_000_000));
    assert_eq!(spec.wings.max_control_angle, 43_633);
    assert_eq!(spec.tail.vertical.max_control_angle, 87_266);
    assert_eq!(spec.tail.horizontal.angle, 4_363);
}

#[test]
fn build_mounts_five_surfaces() {
    let plane = build_plane(PlaneSpec::default()).unwrap();
    assert_eq!(plane.airfoils.len(), 5);
    assert_eq!(plane.airfoils[0].position, AirfoilPosition::Wing(Side::Left));
    assert_eq!(plane.airfoils[1].position, AirfoilPosition::Wing(Side::Right));
    assert_eq!(plane.airfoils[2].position, AirfoilPosition::VerticalTail);
    assert_eq!(plane.airfoils[3].position, AirfoilPosition::TailWing(Side::Left));
    assert_eq!(plane.airfoils[4].position, AirfoilPosition::TailWing(Side::Right));
    // Planform areas: span times chord.
    assert_eq!(plane.airfoils[0].airfoil.area, 8_250_000);
    assert_eq!(plane.airfoils[1].airfoil.area, 8_250_000);
    assert_eq!(plane.airfoils[2].airfoil.area, 50_000);
    assert_eq!(plane.airfoils[3].airfoil.area, 2_000_000);
    assert_eq!(plane.airfoils[4].airfoil.area, 2_000_000);
    // The fin is the one vertical surface.
    assert!(matches!(plane.airfoils[2].airfoil.orientation, AirfoilOrientation::Vertical));
    // Wings sit half a span to each side, a metre behind the origin.
    assert_eq!(plane.airfoils[0].offset, Vec3 { x: 2_750_000, y: 0, z: 1_000_000 });
    assert_eq!(plane.airfoils[1].offset, Vec3 { x: -2_750_000, y: 0, z: 1_000_000 });
    // Tail surfaces sit at the end of the tail boom.
    assert_eq!(plane.airfoils[3].offset, Vec3 { x: 1_000_000, y: 0, z: 5_650_000 });
    assert_eq!(plane.airfoils[4].offset, Vec3 { x: -1_000_000, y: 0, z: 5_650_000 });
    assert_eq!(plane.airfoils[2].offset, Vec3 { x: 0, y: 1_000_000, z: 5_650_000 });
    // The built tables sample the curves at the knots.
    assert_eq!(plane.airfoils[0].airfoil.lift_coefficient_samples.lookup(0), 350_000);
    assert_eq!(
        plane.airfoils[0].airfoil.lift_coefficient_samples.lookup(10_000_000),
        1_400_000
    );
    assert_eq!(plane.airfoils[0].airfoil.drag_coefficient_samples.lookup(0), 32_000);
}

#[test]
fn build_rejects_a_malformed_curve() {
    let mut spec = PlaneSpec::default();
    spec.wings.lift_coefficient_curve = vec![(0, -90_000_000)];
    assert_eq!(build_plane(spec).unwrap_err(), CurveError::TooFewPoints);
    let mut spec = PlaneSpec::default();
    spec.tail.vertical.lift_coefficient_curve =
        vec![(0, -90_000_000), (5, 0), (6, 0), (0, 90_000_000)];
    assert_eq!(build_plane(spec).unwrap_err(), CurveError::NonAscendingAngles);
    let mut spec = PlaneSpec::default();
    spec.tail.horizontal.drag_coefficient_curve = vec![(0, -10_000_000), (0, 90_000_000)];
    assert_eq!(build_plane(spec).unwrap_err(), CurveError::DomainNotCovered);
}

#[test]
fn a_tick_of_level_flight_composes_the_expected_forces() {
    let mut plane = build_plane(PlaneSpec::default()).unwrap();
    let velocity = Vec3 { x: 0, y: 0, z: -60_000_000 };
    tick(&mut plane, &identity_pose(), velocity, Vec3 { x: 0, y: 0, z: 0 });
    assert_eq!(plane.airspeed.0, 60_000_000);
    // Both wings at zero angle of attack lift 6366.9375 newtons each.
    assert_eq!(plane.airfoils[0].angle_of_attack.0, 0);
    assert_eq!(plane.airfoils[0].lift.0, 6_366_937_500);
    assert_eq!(plane.airfoils[1].lift.0, 6_366_937_500);
    // The tail surfaces have no lift at zero angle of attack.
    assert_eq!(plane.airfoils[2].lift.0, 0);
    assert_eq!(plane.airfoils[3].lift.0, 0);
    assert_eq!(plane.airfoils[4].lift.0, 0);
    assert_eq!(plane.external_force.force.y, 12_733_875_000);
    // Net drag: 0.032 * 2205 * (8.25 + 8.25 + 0.05 + 2 + 2) opposite the
    // velocity direction.
    assert_eq!(plane.external_force.force.z, 1_450_008_000);
    assert_eq!(plane.external_force.force.x, 0);
    // No thrust yet, and lift is symmetric: no yaw or roll torque.
    assert_eq!(plane.external_force.torque.y, 0);
    assert_eq!(plane.external_force.torque.z, 0);
}

#[test]
fn elevator_input_adds_tail_lift_through_the_pipeline() {
    let mut plane = build_plane(PlaneSpec::default()).unwrap();
    // A tenth of a radian of elevator: modifier sqrt(0.25) * 0.1 = 0.05 on
    // both tail wings, adding 0.05 * 2205 * 2 = 220.5 newtons each.
    plane.control.elevators = 100_000;
    let velocity = Vec3 { x: 0, y: 0, z: -60_000_000 };
    tick(&mut plane, &identity_pose(), velocity, Vec3 { x: 0, y: 0, z: 0 });
    assert_eq!(plane.airfoils[3].control_deflection, 100_000);
    assert_eq!(plane.airfoils[3].airfoil.lift_coefficient_modifier, 50_000);
    assert_eq!(plane.airfoils[3].lift.0, 220_500_000);
    assert_eq!(plane.airfoils[4].lift.0, 220_500_000);
    assert_eq!(plane.external_force.force.y, 12_733_875_000 + 441_000_000);
}

#[test]
fn thrust_integrates_and_clamps_to_the_design_limit() {
    let mut plane = build_plane(PlaneSpec::default()).unwrap();
    let max = plane.spec.thrust;
    for _ in 0..20 {
        plane.thrust.integrate(50_000_000, max);
        assert!(plane.thrust.0 >= 0 && plane.thrust.0 <= max);
    }
    assert_eq!(plane.thrust.0, 500_000_000);
    plane.thrust.integrate(-600_000_000, max);
    assert_eq!(plane.thrust.0, 0);
}

#[test]
fn full_throttle_tick_pushes_along_the_nose() {
    let mut plane = build_plane(PlaneSpec::default()).unwrap();
    let max = plane.spec.thrust;
    plane.thrust.integrate(500_000_000, max);
    tick(
        &mut plane,
        &identity_pose(),
        Vec3 { x: 0, y: 0, z: 0 },
        Vec3 { x: 0, y: 0, z: 0 },
    );
    // At rest there is no aerodynamic force: thrust is all that remains.
    assert_eq!(plane.external_force.force, Vec3 { x: 0, y: 0, z: -500_000_000 });
}
