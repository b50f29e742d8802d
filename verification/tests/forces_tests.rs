use flightmodel::airfoil::{
    Airfoil, AirfoilOrientation, AirfoilPosition, AngleOfAttack, Lift, MountedAirfoil, Side,
};
use flightmodel::control::{update_airfoil_control_surfaces, PlaneControl};
use flightmodel::curve::build_table;
use flightmodel::forces::{
    propellor_rotation_rate, update_airfoil_forces, update_airspeed, update_centre_of_gravity,
    Airspeed, CentreOfGravity, ExternalForce, PlaneFlight, Thrust, PROPELLOR_FULL_RATE,
};
use flightmodel::vec3::{Pose, Vec3, WideVec3};

fn zero_v() -> Vec3 {
    Vec3 { x: 0, y: 0, z: 0 }
}

fn identity_pose() -> Pose {
    Pose {
        translation: zero_v(),
        x_axis: Vec3 { x: 1_000_000, y: 0, z: 0 },
        y_axis: Vec3 { x: 0, y: 1_000_000, z: 0 },
        z_axis: Vec3 { x: 0, y: 0, z: 1_000_000 },
    }
}

fn zero_force() -> ExternalForce {
    ExternalForce { force: zero_v(), torque: WideVec3 { x: 0, y: 0, z: 0 } }
}

fn zero_cog() -> CentreOfGravity {
    CentreOfGravity { local: zero_v(), global: zero_v() }
}

fn wing(side: Side, lift_curve: &Vec<(i64, i64)>, drag_curve: &Vec<(i64, i64)>) -> MountedAirfoil {
    let x = match side {
        Side::Left => 2_750_000,
        Side::Right => -2_750_000,
    };
    MountedAirfoil {
        position: AirfoilPosition::Wing(side),
        offset: Vec3 { x, y: 0, z: 1_000_000 },
        airfoil: Airfoil {
            orientation: AirfoilOrientation::Horizontal,
            area: 8_250_000,
            lift_coefficient_samples: build_table(lift_curve).unwrap(),
            drag_coefficient_samples: build_table(drag_curve).unwrap(),
            lift_coefficient_modifier: 0,
        },
        control_deflection: 0,
        angle_of_attack: AngleOfAttack(0),
        lift: Lift(0),
    }
}

fn wing_lift_curve() -> Vec<(i64, i64)> {
    vec![
        (0, -90_000_000),
        (0, -5_000_000),
        (350_000, 0),
        (1_400_000, 10_000_000),
        (800_000, 15_000_000),
        (0, 90_000_000),
    ]
}

fn constant_drag_curve() -> Vec<(i64, i64)> {
    vec![(32_000, -90_000_000), (32_000, 90_000_000)]
}

fn flat_curve() -> Vec<(i64, i64)> {
    vec![(0, -90_000_000), (0, 90_000_000)]
}

#[test]
fn thrust_never_leaves_its_limits() {
    let mut t = Thrust(0);
    for _ in 0..100 {
        t.integrate(50_000_000, 500_000_000);
        assert!(t.0 >= 0 && t.0 <= 500_000_000);
    }
    assert_eq!(t.0, 500_000_000);
    for _ in 0..100 {
        t.integrate(-75_000_000, 500_000_000);
        assert!(t.0 >= 0 && t.0 <= 500_000_000);
    }
    assert_eq!(t.0, 0);
}

#[test]
fn propellor_spins_with_the_thrust_fraction() {
    assert_eq!(propellor_rotation_rate(&Thrust(0), 500_000_000), 0);
    assert_eq!(
        propellor_rotation_rate(&Thrust(250_000_000), 500_000_000),
        PROPELLOR_FULL_RATE / 2
    );
    assert_eq!(
        propellor_rotation_rate(&Thrust(500_000_000), 500_000_000),
        PROPELLOR_FULL_RATE
    );
}

#[test]
fn airspeed_is_the_forward_velocity_component() {
    let mut a = Airspeed(0);
    update_airspeed(&mut a, &identity_pose(), Vec3 { x: 0, y: 0, z: -60_000_000 });
    assert_eq!(a.0, 60_000_000);
    update_airspeed(&mut a, &identity_pose(), Vec3 { x: 5_000_000, y: 7_000_000, z: 3_000_000 });
    assert_eq!(a.0, -3_000_000);
}

#[test]
fn centre_of_gravity_follows_the_pose() {
    let mut cog = zero_cog();
    let pose = Pose {
        translation: Vec3 { x: 10_000_000, y: 20_000_000, z: 30_000_000 },
        ..identity_pose()
    };
    update_centre_of_gravity(&mut cog, &pose, Vec3 { x: 1_000_000, y: 0, z: -2_000_000 });
    assert_eq!(cog.local, Vec3 { x: 1_000_000, y: 0, z: -2_000_000 });
    assert_eq!(cog.global, Vec3 { x: 11_000_000, y: 20_000_000, z: 28_000_000 });
}

#[test]
fn point_force_decomposes_into_force_and_torque() {
    // One newton upward, one metre right of the centre: one exact
    // newton-metre of torque about the roll axis, at raw scale.
    let f = Vec3 { x: 0, y: 1_000_000, z: 0 };
    let p = Vec3 { x: 1_000_000, y: 0, z: 0 };
    let pair = ExternalForce::at_point(f, p, zero_v());
    assert_eq!(pair.force, f);
    assert_eq!(pair.torque.x, 0);
    assert_eq!(pair.torque.y, 0);
    assert_eq!(pair.torque.z, 1_000_000_000_000);
    assert_eq!(pair.torque_fixed(), Vec3 { x: 0, y: 0, z: 1_000_000 });
}

#[test]
fn summing_two_equal_pairs_doubles_the_pair() {
    let f = Vec3 { x: 300, y: 1_000_000, z: -70 };
    let p = Vec3 { x: 1_000_000, y: 2_000_000, z: -500_000 };
    let c = Vec3 { x: 11, y: -22, z: 33 };
    let one = ExternalForce::at_point(f, p, c);
    let mut sum = one;
    sum.accumulate(one);
    let doubled = ExternalForce::at_point(
        Vec3 { x: 2 * f.x, y: 2 * f.y, z: 2 * f.z },
        p,
        c,
    );
    assert_eq!(sum, doubled);
}

#[test]
fn zero_velocity_produces_no_aerodynamic_force() {
    let mut airfoils = vec![
        wing(Side::Left, &wing_lift_curve(), &constant_drag_curve()),
        wing(Side::Right, &wing_lift_curve(), &constant_drag_curve()),
    ];
    let mut force = zero_force();
    let mut flight = PlaneFlight { angle_of_attack: 0, weight: 0, drag: 0 };
    update_airfoil_forces(
        &mut airfoils,
        &identity_pose(),
        zero_v(),
        &Airspeed(0),
        &zero_cog(),
        &mut force,
        &mut flight,
    );
    assert_eq!(force, zero_force());
    assert_eq!(airfoils[0].lift.0, 0);
    assert_eq!(airfoils[1].lift.0, 0);
    assert_eq!(flight.drag, 0);
}

#[test]
fn level_flight_lift_matches_the_textbook_value() {
    // Wing area 8.25 square metres, airspeed 60, lift coefficient 0.35:
    // 0.35 * 0.5 * 1.225 * 60 * 60 * 8.25 = 6366.9375 newtons, exactly
    // representable in millionths.
    let mut airfoils = vec![wing(Side::Left, &wing_lift_curve(), &constant_drag_curve())];
    let mut force = zero_force();
    let mut flight = PlaneFlight { angle_of_attack: 0, weight: 0, drag: 0 };
    let velocity = Vec3 { x: 0, y: 0, z: -60_000_000 };
    let mut airspeed = Airspeed(0);
    update_airspeed(&mut airspeed, &identity_pose(), velocity);
    assert_eq!(airspeed.0, 60_000_000);
    update_airfoil_forces(
        &mut airfoils,
        &identity_pose(),
        velocity,
        &airspeed,
        &zero_cog(),
        &mut force,
        &mut flight,
    );
    assert_eq!(airfoils[0].angle_of_attack.0, 0);
    assert_eq!(airfoils[0].lift.0, 6_366_937_500);
    assert_eq!(force.force.y, 6_366_937_500);
    // Drag: 0.032 * 2205 * 8.25 = 582.12 newtons, opposite the velocity.
    assert_eq!(flight.drag, 582_120_000);
    assert_eq!(force.force.z, 582_120_000);
    assert_eq!(force.force.x, 0);
}

#[test]
fn angled_flight_samples_the_table_and_opposes_the_velocity() {
    // Flight path pitched a quarter-plus turn up: the angle of attack is
    // minus forty-five degrees, the linear test curve samples -0.45 there,
    // and the drag acts exactly opposite the velocity direction.
    let linear_curve = vec![(-900_000, -90_000_000), (900_000, 90_000_000)];
    let mut airfoils = vec![MountedAirfoil {
        position: AirfoilPosition::Wing(Side::Left),
        offset: Vec3 { x: 0, y: 0, z: 0 },
        airfoil: Airfoil {
            orientation: AirfoilOrientation::Horizontal,
            area: 8_250_000,
            lift_coefficient_samples: build_table(&linear_curve).unwrap(),
            drag_coefficient_samples: build_table(&constant_drag_curve()).unwrap(),
            lift_coefficient_modifier: 0,
        },
        control_deflection: 0,
        angle_of_attack: AngleOfAttack(0),
        lift: Lift(0),
    }];
    let mut force = zero_force();
    let mut flight = PlaneFlight { angle_of_attack: 0, weight: 0, drag: 0 };
    let velocity = Vec3 { x: 0, y: 1_000_000, z: -1_000_000 };
    update_airfoil_forces(
        &mut airfoils,
        &identity_pose(),
        velocity,
        &Airspeed(60_000_000),
        &zero_cog(),
        &mut force,
        &mut flight,
    );
    assert_eq!(airfoils[0].angle_of_attack.0, -45);
    assert_eq!(airfoils[0].lift.0, -8_186_062_500);
    assert_eq!(flight.drag, 582_120_000);
    assert_eq!(force.force, Vec3 { x: 0, y: -8_597_683_626, z: 411_621_126 });
    // The surface sits exactly at the centre of gravity: no torque.
    assert_eq!(force.torque, WideVec3 { x: 0, y: 0, z: 0 });
}

#[test]
fn differential_ailerons_cancel_in_force_and_couple_in_torque() {
    // Flat base lift on both wings, opposite modifiers from one aileron
    // input: the two lift forces cancel exactly, leaving a pure rolling
    // couple about the z axis.
    let control = PlaneControl { ailerons: 100_000, elevators: 0, rudder: 0 };
    let mut airfoils = vec![
        wing(Side::Left, &flat_curve(), &flat_curve()),
        wing(Side::Right, &flat_curve(), &flat_curve()),
    ];
    update_airfoil_control_surfaces(&control, &mut airfoils);
    assert_eq!(airfoils[0].airfoil.lift_coefficient_modifier, -50_000);
    assert_eq!(airfoils[1].airfoil.lift_coefficient_modifier, 50_000);
    let mut force = zero_force();
    let mut flight = PlaneFlight { angle_of_attack: 0, weight: 0, drag: 0 };
    let velocity = Vec3 { x: 0, y: 0, z: -60_000_000 };
    update_airfoil_forces(
        &mut airfoils,
        &identity_pose(),
        velocity,
        &Airspeed(60_000_000),
        &zero_cog(),
        &mut force,
        &mut flight,
    );
    // 0.05 * 2205 * 8.25 = 909.5625 newtons on each side, opposite signs.
    assert_eq!(airfoils[0].lift.0, -909_562_500);
    assert_eq!(airfoils[1].lift.0, 909_562_500);
    assert_eq!(force.force, zero_v());
    // The two pitch contributions cancel; the roll couple does not:
    // 2 * 2.75 m * 909.5625 N about the roll axis.
    assert_eq!(force.torque.x, 0);
    assert_eq!(force.torque.y, 0);
    assert_eq!(force.torque.z, -5_002_593_750_000_000);
}
