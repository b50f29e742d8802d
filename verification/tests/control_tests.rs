use flightmodel::airfoil::{
    Airfoil, AirfoilOrientation, AirfoilPosition, AngleOfAttack, Lift, MountedAirfoil, Side,
};
use flightmodel::control::{
    calculate_control_surface_lift_coefficient_modifier, dec_clamped, inc_clamped, scaled_value,
    update_airfoil_control_surfaces, PlaneControl,
};
use flightmodel::curve::build_table;
use flightmodel::vec3::Vec3;

#[test]
fn modifier_is_root_chord_times_deflection() {
    // The square root of a quarter chord is exactly one half.
    assert_eq!(
        calculate_control_surface_lift_coefficient_modifier(250_000, 100_000),
        50_000
    );
    assert_eq!(
        calculate_control_surface_lift_coefficient_modifier(250_000, -100_000),
        -50_000
    );
    assert_eq!(
        calculate_control_surface_lift_coefficient_modifier(250_000, 0),
        0
    );
    assert_eq!(
        calculate_control_surface_lift_coefficient_modifier(1_000_000, 70_000),
        70_000
    );
}

#[test]
fn stepped_control_clamps_at_the_limit() {
    let max: i64 = 100_000;
    let mut v: i64 = 0;
    for _ in 0..20 {
        v = inc_clamped(v, max);
        assert!(v <= max);
    }
    assert_eq!(v, max);
    for _ in 0..40 {
        v = dec_clamped(v, max);
        assert!(v >= -max);
    }
    assert_eq!(v, -max);
    assert_eq!(inc_clamped(0, 100_000), 20_000);
    assert_eq!(dec_clamped(0, 100_000), -20_000);
}

#[test]
fn stick_values_rescale_past_the_dead_zone() {
    // A stick at 0.6 with a 0.2 dead zone maps to a half.
    assert_eq!(scaled_value(600_000, 200_000), 500_000);
    assert_eq!(scaled_value(-600_000, 200_000), -500_000);
    assert_eq!(scaled_value(1_000_000, 200_000), 1_000_000);
    assert_eq!(scaled_value(0, 200_000), 0);
}

#[test]
fn clear_releases_every_axis() {
    let mut c = PlaneControl { ailerons: 5, elevators: -7, rudder: 9 };
    c.clear();
    assert_eq!(c, PlaneControl { ailerons: 0, elevators: 0, rudder: 0 });
    assert_eq!(PlaneControl::default(), c);
}

fn mounted(position: AirfoilPosition) -> MountedAirfoil {
    let flat = build_table(&vec![(0, -90_000_000), (0, 90_000_000)]).unwrap();
    MountedAirfoil {
        position,
        offset: Vec3 { x: 0, y: 0, z: 0 },
        airfoil: Airfoil {
            orientation: AirfoilOrientation::Horizontal,
            area: 1_000_000,
            lift_coefficient_samples: flat.clone(),
            drag_coefficient_samples: flat,
            lift_coefficient_modifier: 0,
        },
        control_deflection: 0,
        angle_of_attack: AngleOfAttack(0),
        lift: Lift(0),
    }
}

#[test]
fn ailerons_deflect_the_wings_oppositely() {
    let control = PlaneControl { ailerons: 100_000, elevators: 40_000, rudder: -60_000 };
    let mut airfoils = vec![
        mounted(AirfoilPosition::Wing(Side::Left)),
        mounted(AirfoilPosition::Wing(Side::Right)),
        mounted(AirfoilPosition::TailWing(Side::Left)),
        mounted(AirfoilPosition::VerticalTail),
    ];
    update_airfoil_control_surfaces(&control, &mut airfoils);
    assert_eq!(airfoils[0].control_deflection, -100_000);
    assert_eq!(airfoils[1].control_deflection, 100_000);
    assert_eq!(airfoils[0].airfoil.lift_coefficient_modifier, -50_000);
    assert_eq!(airfoils[1].airfoil.lift_coefficient_modifier, 50_000);
    assert_eq!(
        airfoils[0].airfoil.lift_coefficient_modifier,
        -airfoils[1].airfoil.lift_coefficient_modifier
    );
    assert_eq!(airfoils[2].control_deflection, 40_000);
    assert_eq!(airfoils[2].airfoil.lift_coefficient_modifier, 20_000);
    assert_eq!(airfoils[3].control_deflection, -60_000);
    assert_eq!(airfoils[3].airfoil.lift_coefficient_modifier, -30_000);
}
