//! The aircraft instance: its design, control and thrust state, its
//! mounted surfaces, and the per-tick pipeline that turns motion into one
//! net force and torque.

use vstd::prelude::*;

use crate::airfoil::{Airfoil, AirfoilOrientation, AirfoilPosition, AngleOfAttack, Lift};
use crate::airfoil::{side_offset_s, MountedAirfoil, Side};
use crate::control::{control_deflection_s, modifier_s, update_airfoil_control_surfaces};
use crate::control::{lemma_modifier_bounded, PlaneControl, FLAP_RELATIVE_CHORD};
use crate::curve::{curve_valid, table_matches, CoefficientTable, CurveError};
use crate::fixed::{abs_i, fmul, fx_mul, lemma_fmul_bound, HALF, SCALE};
use crate::forces::{airfoil_drag_s, airfoils_forces_s, airspeed_s, dynamic_pressure_s};
use crate::forces::{forces_applied, thrust_pair_s, update_airfoil_forces, update_airspeed};
use crate::forces::{update_centre_of_gravity, update_thrust_forces, ForceTorque};
use crate::forces::{Airspeed, Altitude, CentreOfGravity, ExternalForce, PlaneFlight, Thrust};
use crate::forces::{AIRSPEED_LIMIT, COG_LIMIT, SPEED_LIMIT};
use crate::plane_spec::{PlaneSpec, WingSpec};
use crate::vec3::{in_range, rot_x, rot_y, rot_z, Pose, Vec3, WideVec3};

verus! {

/// A complete aircraft: the immutable design, the mutable control and
/// thrust state, the mounted surfaces, and the per-tick outputs.
#[derive(Debug)]
pub struct Plane {
    pub spec: PlaneSpec,
    pub control: PlaneControl,
    pub thrust: Thrust,
    pub airspeed: Airspeed,
    pub altitude: Altitude,
    pub flight: PlaneFlight,
    pub centre_of_gravity: CentreOfGravity,
    pub external_force: ExternalForce,
    pub airfoils: Vec<MountedAirfoil>,
}

impl Plane {
    pub open spec fn wf(self) -> bool {
        &&& self.spec.wf()
        &&& self.control.wf()
        &&& 0 <= self.thrust.0 <= self.spec.thrust
        &&& abs_i(self.airspeed.0 as int) <= AIRSPEED_LIMIT as int
        &&& in_range(self.centre_of_gravity.global, COG_LIMIT as int)
        &&& self.airfoils@.len() <= 16
        &&& forall|i: int| 0 <= i < self.airfoils@.len() ==> (#[trigger] self.airfoils@[i]).wf()
    }
}

/// The surface group of the design a mounted position draws on.
pub open spec fn wing_spec_for(spec: PlaneSpec, pos: AirfoilPosition) -> WingSpec {
    match pos {
        AirfoilPosition::Wing(_) => spec.wings,
        AirfoilPosition::TailWing(_) => spec.tail.horizontal,
        AirfoilPosition::VerticalTail => spec.tail.vertical,
    }
}

/// The lift-axis orientation a mounted position carries.
pub open spec fn orientation_for(pos: AirfoilPosition) -> AirfoilOrientation {
    match pos {
        AirfoilPosition::VerticalTail => AirfoilOrientation::Vertical,
        _ => AirfoilOrientation::Horizontal,
    }
}

/// The fixed mounting offset of a position, one component at a time:
/// wings sit a metre behind the origin and half a span to their side,
/// tail surfaces sit at the end of the tail boom, the fin half its height
/// up.
pub open spec fn mount_offset_c(spec: PlaneSpec, pos: AirfoilPosition, c: int) -> int {
    let tail_z = fmul(spec.fuselage.size.z as int, HALF as int) + spec.tail.size.z;
    match pos {
        AirfoilPosition::Wing(s) => {
            if c == 0 {
                fmul(fmul(spec.wings.size.x as int, HALF as int), side_offset_s(s))
            } else if c == 1 {
                0
            } else {
                SCALE as int
            }
        },
        AirfoilPosition::TailWing(s) => {
            if c == 0 {
                fmul(fmul(spec.tail.horizontal.size.x as int, HALF as int), side_offset_s(s))
            } else if c == 1 {
                0
            } else {
                tail_z
            }
        },
        AirfoilPosition::VerticalTail => {
            if c == 0 {
                0
            } else if c == 1 {
                fmul(spec.tail.vertical.size.y as int, HALF as int)
            } else {
                tail_z
            }
        },
    }
}

/// One surface as the factory mounts it: neutral, unloaded, with its
/// tables sampled from the design's curves.
pub open spec fn airfoil_built(m: MountedAirfoil, spec: PlaneSpec, pos: AirfoilPosition) -> bool {
    let ws = wing_spec_for(spec, pos);
    &&& m.position == pos
    &&& m.airfoil.orientation == orientation_for(pos)
    &&& m.airfoil.area as int == fmul(ws.size.x as int, ws.size.z as int)
    &&& table_matches(m.airfoil.lift_coefficient_samples, ws.lift_coefficient_curve@)
    &&& table_matches(m.airfoil.drag_coefficient_samples, ws.drag_coefficient_curve@)
    &&& m.airfoil.lift_coefficient_modifier == 0
    &&& m.offset.x as int == mount_offset_c(spec, pos, 0)
    &&& m.offset.y as int == mount_offset_c(spec, pos, 1)
    &&& m.offset.z as int == mount_offset_c(spec, pos, 2)
    &&& m.control_deflection == 0
    &&& m.angle_of_attack.0 == 0
    &&& m.lift.0 == 0
}

/// A freshly built aircraft: the design kept whole, every mutable state
/// neutral, and the five surfaces mounted — both wings, the vertical
/// tail, and both tail wings.
pub open spec fn plane_built(p: Plane, spec: PlaneSpec) -> bool {
    &&& p.spec == spec
    &&& p.control == (PlaneControl { ailerons: 0, elevators: 0, rudder: 0 })
    &&& p.thrust.0 == 0
    &&& p.airspeed.0 == 0
    &&& p.altitude.0 == 0
    &&& p.flight == (PlaneFlight { angle_of_attack: 0, weight: 0, drag: 0 })
    &&& p.centre_of_gravity.local.is_zero()
    &&& p.centre_of_gravity.global.is_zero()
    &&& p.external_force.force.is_zero()
    &&& p.external_force.torque.is_zero()
    &&& p.airfoils@.len() == 5
    &&& airfoil_built(p.airfoils@[0], spec, AirfoilPosition::Wing(Side::Left))
    &&& airfoil_built(p.airfoils@[1], spec, AirfoilPosition::Wing(Side::Right))
    &&& airfoil_built(p.airfoils@[2], spec, AirfoilPosition::VerticalTail)
    &&& airfoil_built(p.airfoils@[3], spec, AirfoilPosition::TailWing(Side::Left))
    &&& airfoil_built(p.airfoils@[4], spec, AirfoilPosition::TailWing(Side::Right))
}

/// All six coefficient curves of a design are valid.
pub open spec fn curves_valid(spec: PlaneSpec) -> bool {
    &&& curve_valid(spec.wings.lift_coefficient_curve@)
    &&& curve_valid(spec.wings.drag_coefficient_curve@)
    &&& curve_valid(spec.tail.vertical.lift_coefficient_curve@)
    &&& curve_valid(spec.tail.vertical.drag_coefficient_curve@)
    &&& curve_valid(spec.tail.horizontal.lift_coefficient_curve@)
    &&& curve_valid(spec.tail.horizontal.drag_coefficient_curve@)
}

/// Mount one surface.
fn mount(
    position: AirfoilPosition,
    orientation: AirfoilOrientation,
    area: i64,
    lift_table: CoefficientTable,
    drag_table: CoefficientTable,
    offset: Vec3,
) -> (m: MountedAirfoil)
    ensures
        m.position == position,
        m.airfoil.orientation == orientation,
        m.airfoil.area == area,
        m.airfoil.lift_coefficient_samples == lift_table,
        m.airfoil.drag_coefficient_samples == drag_table,
        m.airfoil.lift_coefficient_modifier == 0,
        m.offset == offset,
        m.control_deflection == 0,
        m.angle_of_attack.0 == 0,
        m.lift.0 == 0,
{
    MountedAirfoil {
        position,
        offset,
        airfoil: Airfoil {
            orientation,
            area,
            lift_coefficient_samples: lift_table,
            drag_coefficient_samples: drag_table,
            lift_coefficient_modifier: 0,
        },
        control_deflection: 0,
        angle_of_attack: AngleOfAttack(0),
        lift: Lift(0),
    }
}

/// Half of a design extent, exactly.
fn half_of(size: i64) -> (r: i64)
    requires
        0 <= size <= crate::plane_spec::SIZE_LIMIT,
    ensures
        r as int == fmul(size as int, HALF as int),
        0 <= r <= size,
{
    proof {
        lemma_fmul_bound(size as int, HALF as int, size as int, HALF as int);
        assert((size as int) * (HALF as int) / (SCALE as int) <= size as int) by (nonlinear_arith)
            requires
                0 <= size,
                HALF == 500_000i64,
                SCALE == 1_000_000i64,
        ;
        assert(fmul(size as int, HALF as int) >= 0);
    }
    fx_mul(size, HALF)
}

/// Half an extent, signed to a side.
fn half_to_side(size: i64, side: Side) -> (r: i64)
    requires
        0 <= size <= crate::plane_spec::SIZE_LIMIT,
    ensures
        r as int == fmul(fmul(size as int, HALF as int), side_offset_s(side)),
        abs_i(r as int) <= size as int,
{
    let h = half_of(size);
    proof {
        crate::fixed::lemma_fmul_unit(h as int);
    }
    let o = side.offset();
    fx_mul(h, o)
}

/// The planform area of a surface group: its spanwise extent times its
/// chordwise extent.
fn area_of(ws: &WingSpec) -> (r: i64)
    requires
        ws.wf(),
    ensures
        r as int == fmul(ws.size.x as int, ws.size.z as int),
        0 <= r <= crate::airfoil::AREA_LIMIT,
{
    fx_mul(ws.size.x, ws.size.z)
}

/// Build an aircraft from its design: sample all six coefficient tables
/// and mount the five surfaces, every mutable state neutral.  Fails fast,
/// with the first offending curve's error, on any malformed curve; a
/// partially built aircraft never comes out.
pub fn build_plane(spec: PlaneSpec) -> (r: Result<Plane, CurveError>)
    requires
        spec.wf(),
    ensures
        r is Ok <==> curves_valid(spec),
        match r {
            Ok(p) => plane_built(p, spec) && p.wf(),
            Err(e) => {
                let wl = spec.wings.lift_coefficient_curve@;
                let wd = spec.wings.drag_coefficient_curve@;
                let vl = spec.tail.vertical.lift_coefficient_curve@;
                let vd = spec.tail.vertical.drag_coefficient_curve@;
                let hl = spec.tail.horizontal.lift_coefficient_curve@;
                let hd = spec.tail.horizontal.drag_coefficient_curve@;
                ||| !curve_valid(wl) && e == crate::curve::curve_error(wl)
                ||| curve_valid(wl) && !curve_valid(wd) && e == crate::curve::curve_error(wd)
                ||| curve_valid(wl) && curve_valid(wd) && !curve_valid(vl) && e
                    == crate::curve::curve_error(vl)
                ||| curve_valid(wl) && curve_valid(wd) && curve_valid(vl) && !curve_valid(vd) && e
                    == crate::curve::curve_error(vd)
                ||| curve_valid(wl) && curve_valid(wd) && curve_valid(vl) && curve_valid(vd)
                    && !curve_valid(hl) && e == crate::curve::curve_error(hl)
                ||| curve_valid(wl) && curve_valid(wd) && curve_valid(vl) && curve_valid(vd)
                    && curve_valid(hl) && !curve_valid(hd) && e == crate::curve::curve_error(hd)
            },
        },
{
    let wing_lift = match spec.wings.lift_coefficient_samples() {
        Ok(t) => t,
        Err(e) => {
            return Err(e);
        },
    };
    let wing_drag = match spec.wings.drag_coefficient_samples() {
        Ok(t) => t,
        Err(e) => {
            return Err(e);
        },
    };
    let vertical_lift = match spec.tail.vertical.lift_coefficient_samples() {
        Ok(t) => t,
        Err(e) => {
            return Err(e);
        },
    };
    let vertical_drag = match spec.tail.vertical.drag_coefficient_samples() {
        Ok(t) => t,
        Err(e) => {
            return Err(e);
        },
    };
    let horizontal_lift = match spec.tail.horizontal.lift_coefficient_samples() {
        Ok(t) => t,
        Err(e) => {
            return Err(e);
        },
    };
    let horizontal_drag = match spec.tail.horizontal.drag_coefficient_samples() {
        Ok(t) => t,
        Err(e) => {
            return Err(e);
        },
    };
    let wing_lift_r = match spec.wings.lift_coefficient_samples() {
        Ok(t) => t,
        Err(e) => {
            return Err(e);
        },
    };
    let wing_drag_r = match spec.wings.drag_coefficient_samples() {
        Ok(t) => t,
        Err(e) => {
            return Err(e);
        },
    };
    let horizontal_lift_r = match spec.tail.horizontal.lift_coefficient_samples() {
        Ok(t) => t,
        Err(e) => {
            return Err(e);
        },
    };
    let horizontal_drag_r = match spec.tail.horizontal.drag_coefficient_samples() {
        Ok(t) => t,
        Err(e) => {
            return Err(e);
        },
    };
    let wing_area = area_of(&spec.wings);
    let tail_h_area = area_of(&spec.tail.horizontal);
    let tail_v_area = area_of(&spec.tail.vertical);
    let half_fuselage = half_of(spec.fuselage.size.z);
    let tail_z = half_fuselage + spec.tail.size.z;
    let fin_y = half_of(spec.tail.vertical.size.y);
    let mut airfoils: Vec<MountedAirfoil> = Vec::new();
    airfoils.push(
        mount(
            AirfoilPosition::Wing(Side::Left),
            AirfoilOrientation::Horizontal,
            wing_area,
            wing_lift,
            wing_drag,
            Vec3 { x: half_to_side(spec.wings.size.x, Side::Left), y: 0, z: SCALE },
        ),
    );
    airfoils.push(
        mount(
            AirfoilPosition::Wing(Side::Right),
            AirfoilOrientation::Horizontal,
            wing_area,
            wing_lift_r,
            wing_drag_r,
            Vec3 { x: half_to_side(spec.wings.size.x, Side::Right), y: 0, z: SCALE },
        ),
    );
    airfoils.push(
        mount(
            AirfoilPosition::VerticalTail,
            AirfoilOrientation::Vertical,
            tail_v_area,
            vertical_lift,
            vertical_drag,
            Vec3 { x: 0, y: fin_y, z: tail_z },
        ),
    );
    airfoils.push(
        mount(
            AirfoilPosition::TailWing(Side::Left),
            AirfoilOrientation::Horizontal,
            tail_h_area,
            horizontal_lift,
            horizontal_drag,
            Vec3 { x: half_to_side(spec.tail.horizontal.size.x, Side::Left), y: 0, z: tail_z },
        ),
    );
    airfoils.push(
        mount(
            AirfoilPosition::TailWing(Side::Right),
            AirfoilOrientation::Horizontal,
            tail_h_area,
            horizontal_lift_r,
            horizontal_drag_r,
            Vec3 { x: half_to_side(spec.tail.horizontal.size.x, Side::Right), y: 0, z: tail_z },
        ),
    );
    let p = Plane {
        spec,
        control: PlaneControl { ailerons: 0, elevators: 0, rudder: 0 },
        thrust: Thrust(0),
        airspeed: Airspeed(0),
        altitude: Altitude(0),
        flight: PlaneFlight { angle_of_attack: 0, weight: 0, drag: 0 },
        centre_of_gravity: CentreOfGravity {
            local: Vec3 { x: 0, y: 0, z: 0 },
            global: Vec3 { x: 0, y: 0, z: 0 },
        },
        external_force: ExternalForce {
            force: Vec3 { x: 0, y: 0, z: 0 },
            torque: WideVec3 { x: 0, y: 0, z: 0 },
        },
        airfoils,
    };
    Ok(p)
}

/// A mounted surface as the control model leaves it for a given control
/// state: hinge deflection and lift-coefficient modifier written,
/// everything else untouched.
pub open spec fn with_control(m: MountedAirfoil, c: PlaneControl) -> MountedAirfoil {
    MountedAirfoil {
        position: m.position,
        offset: m.offset,
        airfoil: Airfoil {
            orientation: m.airfoil.orientation,
            area: m.airfoil.area,
            lift_coefficient_samples: m.airfoil.lift_coefficient_samples,
            drag_coefficient_samples: m.airfoil.drag_coefficient_samples,
            lift_coefficient_modifier: modifier_s(
                FLAP_RELATIVE_CHORD as int,
                control_deflection_s(m.position, c),
            ) as i64,
        },
        control_deflection: control_deflection_s(m.position, c) as i64,
        angle_of_attack: m.angle_of_attack,
        lift: m.lift,
    }
}

/// One simulation tick, in the pipeline's strict order: centre of
/// gravity, control surfaces, airspeed, thrust forces, airfoil forces.
/// The accumulated external force and torque are overwritten, never
/// carried over from the previous tick.
pub fn tick(plane: &mut Plane, pose: &Pose, velocity: Vec3, local_centre_of_mass: Vec3)
    requires
        old(plane).wf(),
        pose.wf(),
        in_range(velocity, SPEED_LIMIT as int),
        in_range(local_centre_of_mass, 0x4_0000_0000),
    ensures
        final(plane).wf(),
        final(plane).spec == old(plane).spec,
        final(plane).control == old(plane).control,
        final(plane).thrust == old(plane).thrust,
        final(plane).altitude == old(plane).altitude,
        final(plane).centre_of_gravity.local == local_centre_of_mass,
        final(plane).centre_of_gravity.global.x as int == pose.translation.x + rot_x(
            *pose,
            local_centre_of_mass,
        ),
        final(plane).centre_of_gravity.global.y as int == pose.translation.y + rot_y(
            *pose,
            local_centre_of_mass,
        ),
        final(plane).centre_of_gravity.global.z as int == pose.translation.z + rot_z(
            *pose,
            local_centre_of_mass,
        ),
        final(plane).airspeed.0 as int == airspeed_s(*pose, velocity),
        final(plane).airfoils@.len() == old(plane).airfoils@.len(),
        forall|k: int|
            0 <= k < old(plane).airfoils@.len() ==> forces_applied(
                with_control(old(plane).airfoils@[k], old(plane).control),
                #[trigger] final(plane).airfoils@[k],
                *pose,
                velocity,
                dynamic_pressure_s(airspeed_s(*pose, velocity)),
            ),
        ForceTorque::of(final(plane).external_force) == thrust_pair_s(
            old(plane).spec,
            *pose,
            old(plane).thrust.0 as int,
            final(plane).centre_of_gravity.global,
        ).plus(
            airfoils_forces_s(
                old(plane).airfoils@.map_values(
                    |m: MountedAirfoil| with_control(m, old(plane).control),
                ),
                *pose,
                velocity,
                dynamic_pressure_s(airspeed_s(*pose, velocity)),
                final(plane).centre_of_gravity.global,
            ),
        ),
        old(plane).airfoils@.len() > 0 ==> final(plane).flight.drag as int == airfoil_drag_s(
            with_control(
                old(plane).airfoils@[old(plane).airfoils@.len() - 1],
                old(plane).control,
            ),
            *pose,
            velocity,
            dynamic_pressure_s(airspeed_s(*pose, velocity)),
        ),
{
    let ghost c = old(plane).control;
    update_centre_of_gravity(&mut plane.centre_of_gravity, pose, local_centre_of_mass);
    update_airfoil_control_surfaces(&plane.control, &mut plane.airfoils);
    proof {
        assert forall|k: int| 0 <= k < plane.airfoils@.len() implies #[trigger] plane.airfoils@[k]
            == with_control(old(plane).airfoils@[k], c) by {
            lemma_modifier_bounded(
                FLAP_RELATIVE_CHORD as int,
                control_deflection_s(old(plane).airfoils@[k].position, c),
            );
        }
        assert(plane.airfoils@ =~= old(plane).airfoils@.map_values(
            |m: MountedAirfoil| with_control(m, c),
        ));
    }
    update_airspeed(&mut plane.airspeed, pose, velocity);
    update_thrust_forces(
        &plane.spec,
        &plane.thrust,
        pose,
        &plane.centre_of_gravity,
        &mut plane.external_force,
    );
    update_airfoil_forces(
        &mut plane.airfoils,
        pose,
        velocity,
        &plane.airspeed,
        &plane.centre_of_gravity,
        &mut plane.external_force,
        &mut plane.flight,
    );
    proof {
        assert forall|k: int| 0 <= k < plane.airfoils@.len() implies (
        #[trigger] plane.airfoils@[k]).wf() by {
            assert(forces_applied(
                with_control(old(plane).airfoils@[k], c),
                plane.airfoils@[k],
                *pose,
                velocity,
                dynamic_pressure_s(airspeed_s(*pose, velocity)),
            ));
            lemma_modifier_bounded(
                FLAP_RELATIVE_CHORD as int,
                control_deflection_s(old(plane).airfoils@[k].position, c),
            );
        }
    }
}

} // verus!
