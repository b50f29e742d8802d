use flightmodel::curve::{build_table, CurveError};

fn wing_lift_curve() -> Vec<(i64, i64)> {
    vec![
        (0, -90_000_000),
        (0, -5_000_000),
        (350_000, 0),
        (1_400_000, 10_000_000),
        (800_000, 15_000_000),
        (0, 90_000_000),
    ]
}

#[test]
fn table_has_exactly_180_samples() {
    let t = build_table(&wing_lift_curve()).unwrap();
    assert_eq!(t.samples.len(), 180);
}

#[test]
fn lookup_at_lower_bound_is_first_sample() {
    let t = build_table(&wing_lift_curve()).unwrap();
    assert_eq!(t.lookup(-90_000_000), t.samples[0]);
}

#[test]
fn lookup_just_under_upper_bound_is_last_sample() {
    let t = build_table(&wing_lift_curve()).unwrap();
    assert_eq!(t.lookup(89_900_000), t.samples[179]);
}

#[test]
fn lookup_beyond_domain_clamps_instead_of_wrapping() {
    let t = build_table(&wing_lift_curve()).unwrap();
    assert_eq!(t.lookup(200_000_000), t.lookup(90_000_000));
    assert_eq!(t.lookup(200_000_000), t.samples[179]);
    assert_eq!(t.lookup(-200_000_000), t.samples[0]);
}

#[test]
fn samples_coincide_with_knots() {
    let t = build_table(&wing_lift_curve()).unwrap();
    assert_eq!(t.lookup(0), 350_000);
    assert_eq!(t.lookup(10_000_000), 1_400_000);
    assert_eq!(t.lookup(15_000_000), 800_000);
    assert_eq!(t.lookup(-5_000_000), 0);
}

#[test]
fn interpolation_between_knots_is_linear() {
    let t = build_table(&wing_lift_curve()).unwrap();
    // Halfway between the knots at zero and ten degrees: 0.35 + (1.4 - 0.35) / 2.
    assert_eq!(t.lookup(5_000_000), 875_000);
    // One degree above zero: 0.35 + 1.05 / 10.
    assert_eq!(t.lookup(1_000_000), 455_000);
}

#[test]
fn constant_drag_curve_samples_constant() {
    let t = build_table(&vec![(32_000, -90_000_000), (32_000, 90_000_000)]).unwrap();
    for i in 0..180 {
        assert_eq!(t.samples[i], 32_000);
    }
}

#[test]
fn too_few_points_is_rejected() {
    assert_eq!(
        build_table(&vec![(0, -90_000_000)]).unwrap_err(),
        CurveError::TooFewPoints
    );
    assert_eq!(build_table(&vec![]).unwrap_err(), CurveError::TooFewPoints);
}

#[test]
fn non_ascending_angles_are_rejected() {
    assert_eq!(
        build_table(&vec![(0, -90_000_000), (100, 5_000_000), (200, 5_000_000), (0, 90_000_000)])
            .unwrap_err(),
        CurveError::NonAscendingAngles
    );
}

#[test]
fn short_domain_is_rejected() {
    assert_eq!(
        build_table(&vec![(0, -89_000_000), (0, 90_000_000)]).unwrap_err(),
        CurveError::DomainNotCovered
    );
    assert_eq!(
        build_table(&vec![(0, -90_000_000), (0, 89_000_000)]).unwrap_err(),
        CurveError::DomainNotCovered
    );
}

#[test]
fn rounding_picks_the_nearest_degree() {
    let t = build_table(&wing_lift_curve()).unwrap();
    // 0.4 degrees rounds down to the knot at zero; 0.5 rounds up.
    assert_eq!(t.lookup(400_000), 350_000);
    assert_eq!(t.lookup(500_000), t.lookup(1_000_000));
}
