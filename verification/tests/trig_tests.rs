use flightmodel::trig::{acos_deg, angle_between_deg, angle_of_attack, cos_deg};
use flightmodel::vec3::Vec3;

#[test]
fn cosine_table_endpoints_and_landmarks() {
    assert_eq!(cos_deg(0), 1_000_000);
    assert_eq!(cos_deg(60), 500_000);
    assert_eq!(cos_deg(90), 0);
    assert_eq!(cos_deg(120), -500_000);
    assert_eq!(cos_deg(180), -1_000_000);
}

#[test]
fn arc_cosine_inverts_the_table() {
    assert_eq!(acos_deg(1_000_000), 0);
    assert_eq!(acos_deg(500_000), 60);
    assert_eq!(acos_deg(0), 90);
    assert_eq!(acos_deg(-500_000), 120);
    assert_eq!(acos_deg(-1_000_000), 180);
}

#[test]
fn perpendicular_vectors_stand_at_ninety_degrees() {
    let x = Vec3 { x: 1_000_000, y: 0, z: 0 };
    let y = Vec3 { x: 0, y: 1_000_000, z: 0 };
    assert_eq!(angle_between_deg(x, y), 90);
    assert_eq!(angle_between_deg(x, x), 0);
    let neg_x = Vec3 { x: -1_000_000, y: 0, z: 0 };
    assert_eq!(angle_between_deg(x, neg_x), 180);
}

#[test]
fn angle_between_is_length_independent() {
    let x = Vec3 { x: 1_000_000, y: 0, z: 0 };
    let far_y = Vec3 { x: 0, y: 60_000_000, z: 0 };
    assert_eq!(angle_between_deg(x, far_y), 90);
}

#[test]
fn zero_velocity_gives_zero_angle_of_attack() {
    let up = Vec3 { x: 0, y: 1_000_000, z: 0 };
    let fwd = Vec3 { x: 0, y: 0, z: -1_000_000 };
    let zero = Vec3 { x: 0, y: 0, z: 0 };
    assert_eq!(angle_of_attack(zero, up, fwd), 0);
}

#[test]
fn level_flight_gives_zero_angle_of_attack() {
    let up = Vec3 { x: 0, y: 1_000_000, z: 0 };
    let fwd = Vec3 { x: 0, y: 0, z: -1_000_000 };
    let velocity = Vec3 { x: 0, y: 0, z: -60_000_000 };
    assert_eq!(angle_of_attack(velocity, up, fwd), 0);
}

#[test]
fn climbing_flight_path_gives_negative_angle_of_attack() {
    // Nose level, flight path pitched up: the velocity leans toward the
    // lift axis, so the signed angle of attack goes negative.
    let up = Vec3 { x: 0, y: 1_000_000, z: 0 };
    let fwd = Vec3 { x: 0, y: 0, z: -1_000_000 };
    let velocity = Vec3 { x: 0, y: 1_000_000, z: -1_000_000 };
    let aoa = angle_of_attack(velocity, up, fwd);
    assert!(aoa < -40 && aoa > -50, "angle of attack {aoa}");
}

#[test]
fn descending_flight_path_gives_positive_angle_of_attack() {
    let up = Vec3 { x: 0, y: 1_000_000, z: 0 };
    let fwd = Vec3 { x: 0, y: 0, z: -1_000_000 };
    let velocity = Vec3 { x: 0, y: -1_000_000, z: -1_000_000 };
    let aoa = angle_of_attack(velocity, up, fwd);
    assert!(aoa > 40 && aoa < 50, "angle of attack {aoa}");
}
