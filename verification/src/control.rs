//! The control model: named control inputs become clamped deflection
//! angles, and deflections become additive lift-coefficient modifiers for
//! the control-bearing surfaces.

use vstd::prelude::*;

use crate::airfoil::{AirfoilPosition, MountedAirfoil, Side, MODIFIER_LIMIT};
use crate::fixed::{abs_i, clip, fmul, is_sqrt, sqrt_i, tdiv, SCALE};
use crate::fixed::{fx_mul, fx_sqrt, lemma_fmul_bound, lemma_sqrt_exists, tdiv_i128};

verus! {

/// The fraction of a surface's chord occupied by its movable control
/// segment: a quarter, for every surface of this model.
pub const FLAP_RELATIVE_CHORD: i64 = 250_000;

/// The three named control axes, as signed deflection angles in
/// fixed-point radians.
#[derive(Clone, Copy, PartialEq, Eq, Structural, Debug)]
pub struct PlaneControl {
    pub ailerons: i64,
    pub elevators: i64,
    pub rudder: i64,
}

impl PlaneControl {
    /// Control angles small enough for every downstream product: within
    /// the modifier bound, far beyond any physical deflection.
    pub open spec fn wf(self) -> bool {
        &&& abs_i(self.ailerons as int) <= MODIFIER_LIMIT as int
        &&& abs_i(self.elevators as int) <= MODIFIER_LIMIT as int
        &&& abs_i(self.rudder as int) <= MODIFIER_LIMIT as int
    }

    /// Release every axis to neutral.
    pub fn clear(&mut self)
        ensures
            final(self).ailerons == 0,
            final(self).elevators == 0,
            final(self).rudder == 0,
    {
        *self = PlaneControl { ailerons: 0, elevators: 0, rudder: 0 };
    }
}

impl Default for PlaneControl {
    /// All axes neutral.
    fn default() -> (r: Self)
        ensures
            r.ailerons == 0 && r.elevators == 0 && r.rudder == 0,
    {
        PlaneControl { ailerons: 0, elevators: 0, rudder: 0 }
    }
}

/// One step of a stepped control axis: a fifth of the surface's maximum
/// deflection upward, clamped to the allowed range.
pub fn inc_clamped(current: i64, max_angle: i64) -> (r: i64)
    requires
        0 <= max_angle <= MODIFIER_LIMIT,
        abs_i(current as int) <= MODIFIER_LIMIT as int,
    ensures
        r as int == clip(
            current + tdiv(max_angle as int, 5),
            -(max_angle as int),
            max_angle as int,
        ),
{
    let step = ((max_angle as u64) / 5) as i64;
    let v = current + step;
    if v < -max_angle {
        -max_angle
    } else if v > max_angle {
        max_angle
    } else {
        v
    }
}

/// One step of a stepped control axis downward, clamped likewise.
pub fn dec_clamped(current: i64, max_angle: i64) -> (r: i64)
    requires
        0 <= max_angle <= MODIFIER_LIMIT,
        abs_i(current as int) <= MODIFIER_LIMIT as int,
    ensures
        r as int == clip(
            current - tdiv(max_angle as int, 5),
            -(max_angle as int),
            max_angle as int,
        ),
{
    let step = ((max_angle as u64) / 5) as i64;
    let v = current - step;
    if v < -max_angle {
        -max_angle
    } else if v > max_angle {
        max_angle
    } else {
        v
    }
}

/// A stick value rescaled from beyond its dead zone to the full range:
/// the magnitude past the threshold, stretched back to a whole unit, with
/// the sign of the input.
pub open spec fn scaled_axis_s(v: int, threshold: int) -> int {
    if v == 0 {
        0
    } else if v < 0 {
        -tdiv((-v - threshold) * (SCALE as int), (SCALE as int) - threshold)
    } else {
        tdiv((v - threshold) * (SCALE as int), (SCALE as int) - threshold)
    }
}

/// Rescale a stick value past its dead zone, as the input mapping does
/// before multiplying by a surface's maximum deflection.
pub fn scaled_value(v: i64, threshold: i64) -> (r: i64)
    requires
        0 <= threshold < SCALE,
        abs_i(v as int) <= SCALE as int,
    ensures
        r as int == scaled_axis_s(v as int, threshold as int),
{
    if v == 0 {
        return 0;
    }
    let m: i64 = if v < 0 {
        -v
    } else {
        v
    };
    proof {
        assert(abs_i((m - threshold) * (SCALE as int)) <= 2_000_000_000_000int) by (nonlinear_arith)
            requires
                abs_i((m - threshold) as int) <= 2_000_000,
                SCALE == 1_000_000i64,
        ;
    }
    let num: i128 = ((m - threshold) as i128) * (SCALE as i128);
    let q = tdiv_i128(num, (SCALE - threshold) as i128);
    if v < 0 {
        -(q as i64)
    } else {
        q as i64
    }
}

/// The lift-coefficient modifier of a deflected control segment: the
/// square root of its relative chord, times its deflection angle.
pub open spec fn modifier_s(relative_chord: int, deflection: int) -> int {
    fmul(sqrt_i(relative_chord * (SCALE as int)), deflection)
}

/// The square root of a fixed-point fraction stays within one unit, and a
/// modifier never exceeds its deflection in magnitude.
pub proof fn lemma_modifier_bounded(relative_chord: int, deflection: int)
    requires
        0 <= relative_chord <= SCALE as int,
    ensures
        0 <= sqrt_i(relative_chord * (SCALE as int)) <= SCALE as int,
        abs_i(modifier_s(relative_chord, deflection)) <= abs_i(deflection),
{
    let n = relative_chord * (SCALE as int);
    assert(0 <= n <= (SCALE as int) * (SCALE as int)) by (nonlinear_arith)
        requires
            n == relative_chord * (SCALE as int),
            0 <= relative_chord <= SCALE as int,
    ;
    lemma_sqrt_exists(n);
    let rt = sqrt_i(n);
    assert(rt <= SCALE as int) by (nonlinear_arith)
        requires
            is_sqrt(n, rt),
            n <= (SCALE as int) * (SCALE as int),
    ;
    lemma_fmul_bound(rt, deflection, SCALE as int, abs_i(deflection));
    assert((SCALE as int) * abs_i(deflection) / (SCALE as int) == abs_i(deflection))
        by (nonlinear_arith)
        requires
            0 <= abs_i(deflection),
    ;
}

/// The empirical control-authority relation: the lift-coefficient
/// modifier of a flap is the square root of its relative chord times its
/// deflection angle in radians.
pub fn calculate_control_surface_lift_coefficient_modifier(
    flap_relative_chord: i64,
    flap_deflection_angle: i64,
) -> (r: i64)
    requires
        0 <= flap_relative_chord <= SCALE,
        abs_i(flap_deflection_angle as int) <= MODIFIER_LIMIT as int,
    ensures
        r as int == modifier_s(flap_relative_chord as int, flap_deflection_angle as int),
        abs_i(r as int) <= abs_i(flap_deflection_angle as int),
{
    proof {
        lemma_modifier_bounded(flap_relative_chord as int, flap_deflection_angle as int);
    }
    let rt = fx_sqrt(flap_relative_chord);
    fx_mul(rt, flap_deflection_angle)
}

/// The deflection a control state commands for a surface at a given
/// position: ailerons deflect the wings, with the left wing negated so
/// differential input rolls instead of lifting; elevators deflect the
/// tail wings; the rudder deflects the vertical tail.
pub open spec fn control_deflection_s(pos: AirfoilPosition, c: PlaneControl) -> int {
    match pos {
        AirfoilPosition::Wing(Side::Left) => -(c.ailerons as int),
        AirfoilPosition::Wing(Side::Right) => c.ailerons as int,
        AirfoilPosition::TailWing(_) => c.elevators as int,
        AirfoilPosition::VerticalTail => c.rudder as int,
    }
}

/// Differential aileron input deflects the two wings oppositely, so their
/// lift-coefficient modifiers are exactly equal and opposite: rolling
/// input produces differential lift, never symmetric lift.
pub proof fn lemma_aileron_modifiers_opposite(c: PlaneControl)
    ensures
        control_deflection_s(AirfoilPosition::Wing(Side::Left), c) == -control_deflection_s(
            AirfoilPosition::Wing(Side::Right),
            c,
        ),
        modifier_s(
            FLAP_RELATIVE_CHORD as int,
            control_deflection_s(AirfoilPosition::Wing(Side::Left), c),
        ) == -modifier_s(
            FLAP_RELATIVE_CHORD as int,
            control_deflection_s(AirfoilPosition::Wing(Side::Right), c),
        ),
{
    crate::fixed::lemma_fmul_neg(
        sqrt_i((FLAP_RELATIVE_CHORD as int) * (SCALE as int)),
        c.ailerons as int,
    );
}

/// One surface after the control model ran: hinge deflection and modifier
/// follow the control state, everything else untouched.
pub open spec fn control_applied(
    prev: MountedAirfoil,
    next: MountedAirfoil,
    c: PlaneControl,
) -> bool {
    let defl = control_deflection_s(prev.position, c);
    &&& next.position == prev.position
    &&& next.offset == prev.offset
    &&& next.angle_of_attack == prev.angle_of_attack
    &&& next.lift == prev.lift
    &&& next.control_deflection as int == defl
    &&& next.airfoil.orientation == prev.airfoil.orientation
    &&& next.airfoil.area == prev.airfoil.area
    &&& next.airfoil.lift_coefficient_samples == prev.airfoil.lift_coefficient_samples
    &&& next.airfoil.drag_coefficient_samples == prev.airfoil.drag_coefficient_samples
    &&& next.airfoil.lift_coefficient_modifier as int == modifier_s(
        FLAP_RELATIVE_CHORD as int,
        defl,
    )
}

/// Apply the control state to every mounted surface: set each hinge
/// deflection and the corresponding lift-coefficient modifier.
pub fn update_airfoil_control_surfaces(control: &PlaneControl, airfoils: &mut Vec<MountedAirfoil>)
    requires
        control.wf(),
        forall|i: int| 0 <= i < old(airfoils)@.len() ==> (#[trigger] old(airfoils)@[i]).wf(),
    ensures
        final(airfoils)@.len() == old(airfoils)@.len(),
        forall|i: int|
            0 <= i < old(airfoils)@.len() ==> control_applied(
                old(airfoils)@[i],
                #[trigger] final(airfoils)@[i],
                *control,
            ),
        forall|i: int| 0 <= i < final(airfoils)@.len() ==> (#[trigger] final(airfoils)@[i]).wf(),
{
    let n = airfoils.len();
    let mut i: usize = 0;
    while i < n
        invariant
            n == airfoils@.len() == old(airfoils)@.len(),
            control.wf(),
            0 <= i <= n,
            forall|k: int| 0 <= k < n ==> (#[trigger] airfoils@[k]).wf(),
            forall|k: int| i <= k < n ==> #[trigger] airfoils@[k] == old(airfoils)@[k],
            forall|k: int|
                0 <= k < i ==> control_applied(
                    old(airfoils)@[k],
                    #[trigger] airfoils@[k],
                    *control,
                ),
        decreases n - i,
    {
        let deflection: i64 = match airfoils[i].position {
            AirfoilPosition::Wing(Side::Left) => -control.ailerons,
            AirfoilPosition::Wing(Side::Right) => control.ailerons,
            AirfoilPosition::TailWing(_) => control.elevators,
            AirfoilPosition::VerticalTail => control.rudder,
        };
        let modifier = calculate_control_surface_lift_coefficient_modifier(
            FLAP_RELATIVE_CHORD,
            deflection,
        );
        airfoils[i].control_deflection = deflection;
        airfoils[i].airfoil.lift_coefficient_modifier = modifier;
        i = i + 1;
    }
}

} // verus!
