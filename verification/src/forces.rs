//! Force and torque composition about the centre of gravity, and the
//! thrust model.
//!
//! A force applied at a point decomposes into the same force at the centre
//! of gravity plus a torque: the offset from the centre crossed with the
//! force.  Torques are accumulated at exact product scale in 128 bits, so
//! composition is exactly bilinear; one truncation happens only when a
//! consumer asks for the fixed-point value.

use vstd::prelude::*;

use crate::airfoil::{force_base_dir_s, AngleOfAttack, Lift, MountedAirfoil, AREA_LIMIT};
use crate::fixed::{abs_i, clip, fmul, tdiv, HALF, SCALE};
use crate::fixed::{fx_mul, lemma_fmul_bound, tdiv_i128};
use crate::plane_spec::{PlaneSpec, THRUST_LIMIT};
use crate::vec3::{dot_s, in_range, neg_v, norm_fx, rot_fits, rot_x, rot_y, rot_z, unit_comp};
use crate::vec3::{Pose, Vec3, WideVec3, AXIS_LIMIT};

verus! {

/// Sea-level air density, in fixed-point kilograms per cubic metre.
pub const AIR_DENSITY: i64 = 1_225_000;

/// Largest magnitude of a velocity component the composer accepts, in
/// fixed-point metres per second.
pub const SPEED_LIMIT: i64 = 0x4000_0000;

/// Largest magnitude of the scalar airspeed the composer accepts.
pub const AIRSPEED_LIMIT: i64 = 0x1_0000_0000;

/// Largest magnitude of a centre-of-gravity component the composer
/// accepts.
pub const COG_LIMIT: i64 = 0x200_0000_0000;

/// The propeller's full-throttle spin rate: ten turns per second, in
/// fixed-point radians per second.
pub const PROPELLOR_FULL_RATE: i64 = 62_831_853;

/// Scalar engine thrust, in fixed-point newtons.
#[derive(Clone, Copy, PartialEq, Eq, Structural, Debug)]
pub struct Thrust(pub i64);

/// Scalar airspeed along the nose direction, in fixed-point metres per
/// second.
#[derive(Clone, Copy, PartialEq, Eq, Structural, Debug)]
pub struct Airspeed(pub i64);

/// Height above the ground plane, in fixed-point metres.
#[derive(Clone, Copy, PartialEq, Eq, Structural, Debug)]
pub struct Altitude(pub i64);

/// Per-tick flight telemetry, overwritten each tick and never read back
/// by the model.
#[derive(Clone, Copy, PartialEq, Eq, Structural, Debug)]
pub struct PlaneFlight {
    pub angle_of_attack: i64,
    pub weight: i64,
    pub drag: i64,
}

/// The aircraft's mass centroid, in the body frame and in the world
/// frame.
#[derive(Clone, Copy, PartialEq, Eq, Structural, Debug)]
pub struct CentreOfGravity {
    pub local: Vec3,
    pub global: Vec3,
}

/// The net external force and torque handed to the rigid-body integrator
/// each tick.  The force is fixed point; the torque is kept at exact
/// product scale.
#[derive(Clone, Copy, PartialEq, Eq, Structural, Debug)]
pub struct ExternalForce {
    pub force: Vec3,
    pub torque: WideVec3,
}

impl Default for Thrust {
    /// Engine at rest.
    fn default() -> (r: Self)
        ensures
            r.0 == 0,
    {
        Thrust(0)
    }
}

impl Default for Airspeed {
    /// Standing still.
    fn default() -> (r: Self)
        ensures
            r.0 == 0,
    {
        Airspeed(0)
    }
}

impl Default for Altitude {
    /// On the ground plane.
    fn default() -> (r: Self)
        ensures
            r.0 == 0,
    {
        Altitude(0)
    }
}

impl Default for PlaneFlight {
    /// No telemetry yet.
    fn default() -> (r: Self)
        ensures
            r.angle_of_attack == 0 && r.weight == 0 && r.drag == 0,
    {
        PlaneFlight { angle_of_attack: 0, weight: 0, drag: 0 }
    }
}

impl Default for CentreOfGravity {
    /// At the body origin.
    fn default() -> (r: Self)
        ensures
            r.local.is_zero() && r.global.is_zero(),
    {
        CentreOfGravity { local: Vec3 { x: 0, y: 0, z: 0 }, global: Vec3 { x: 0, y: 0, z: 0 } }
    }
}

impl Thrust {
    /// Advance the thrust scalar by a throttle-rate delta for the elapsed
    /// tick, clamped to the aircraft's limits: however the intent is
    /// driven over time, the scalar never leaves `[0, max_thrust]`.
    pub fn integrate(&mut self, delta: i64, max_thrust: i64)
        requires
            0 <= max_thrust <= THRUST_LIMIT,
            abs_i(old(self).0 as int) <= THRUST_LIMIT as int,
            abs_i(delta as int) <= THRUST_LIMIT as int,
        ensures
            final(self).0 as int == clip(old(self).0 + delta, 0, max_thrust as int),
            0 <= final(self).0 <= max_thrust,
    {
        let v = self.0 + delta;
        self.0 = if v < 0 {
            0
        } else if v > max_thrust {
            max_thrust
        } else {
            v
        };
    }
}

impl Default for ExternalForce {
    /// No accumulated force or torque.
    fn default() -> (r: Self)
        ensures
            r.force.is_zero(),
            r.torque.is_zero(),
    {
        ExternalForce { force: Vec3 { x: 0, y: 0, z: 0 }, torque: WideVec3 { x: 0, y: 0, z: 0 } }
    }
}

impl ExternalForce {
    /// The equivalent pair, about `centre_of_mass`, of `force` applied at
    /// `point`: the force itself, and the offset from the centre crossed
    /// with the force, exactly.
    pub fn at_point(force: Vec3, point: Vec3, centre_of_mass: Vec3) -> (r: ExternalForce)
        requires
            in_range(force, 0x4000_0000_0000_0000),
            abs_i(point.x - centre_of_mass.x) <= 0x4000_0000_0000_0000,
            abs_i(point.y - centre_of_mass.y) <= 0x4000_0000_0000_0000,
            abs_i(point.z - centre_of_mass.z) <= 0x4000_0000_0000_0000,
        ensures
            r.force == force,
            r.torque.x == (point.y - centre_of_mass.y) * (force.z as int) - (point.z
                - centre_of_mass.z) * (force.y as int),
            r.torque.y == (point.z - centre_of_mass.z) * (force.x as int) - (point.x
                - centre_of_mass.x) * (force.z as int),
            r.torque.z == (point.x - centre_of_mass.x) * (force.y as int) - (point.y
                - centre_of_mass.y) * (force.x as int),
            ForceTorque::of(r) == pair_at_s(force, point, centre_of_mass),
    {
        let d = point.minus(centre_of_mass);
        ExternalForce { force, torque: d.cross_raw(force) }
    }

    /// Add another pair into this one, componentwise and exactly.
    pub fn accumulate(&mut self, other: ExternalForce)
        requires
            i64::MIN <= old(self).force.x + other.force.x <= i64::MAX,
            i64::MIN <= old(self).force.y + other.force.y <= i64::MAX,
            i64::MIN <= old(self).force.z + other.force.z <= i64::MAX,
            i128::MIN <= old(self).torque.x + other.torque.x <= i128::MAX,
            i128::MIN <= old(self).torque.y + other.torque.y <= i128::MAX,
            i128::MIN <= old(self).torque.z + other.torque.z <= i128::MAX,
        ensures
            final(self).force.x == old(self).force.x + other.force.x,
            final(self).force.y == old(self).force.y + other.force.y,
            final(self).force.z == old(self).force.z + other.force.z,
            final(self).torque.x == old(self).torque.x + other.torque.x,
            final(self).torque.y == old(self).torque.y + other.torque.y,
            final(self).torque.z == old(self).torque.z + other.torque.z,
    {
        self.force = self.force.plus(other.force);
        self.torque = self.torque.plus(other.torque);
    }

    /// The torque scaled down to fixed-point steps, truncated toward
    /// zero: the one rounding on the torque path, applied when a consumer
    /// takes the value.
    pub fn torque_fixed(&self) -> (r: Vec3)
        requires
            i64::MIN <= tdiv(self.torque.x as int, SCALE as int) <= i64::MAX,
            i64::MIN <= tdiv(self.torque.y as int, SCALE as int) <= i64::MAX,
            i64::MIN <= tdiv(self.torque.z as int, SCALE as int) <= i64::MAX,
        ensures
            r.x == tdiv(self.torque.x as int, SCALE as int),
            r.y == tdiv(self.torque.y as int, SCALE as int),
            r.z == tdiv(self.torque.z as int, SCALE as int),
    {
        self.torque.to_fixed()
    }
}

/// The scalar airspeed implied by a pose and a linear velocity: the
/// velocity component along the nose direction, positive when moving
/// forward.
pub open spec fn airspeed_s(p: Pose, velocity: Vec3) -> int {
    dot_s(velocity, neg_v(p.z_axis))
}

/// Recompute the scalar airspeed from the world pose and linear velocity.
pub fn update_airspeed(airspeed: &mut Airspeed, pose: &Pose, velocity: Vec3)
    requires
        pose.wf(),
        in_range(velocity, SPEED_LIMIT as int),
    ensures
        final(airspeed).0 as int == airspeed_s(*pose, velocity),
        abs_i(final(airspeed).0 as int) <= AIRSPEED_LIMIT as int,
{
    let fwd = pose.forward();
    proof {
        lemma_fmul_bound(velocity.x as int, fwd.x as int, SPEED_LIMIT as int, AXIS_LIMIT as int);
        lemma_fmul_bound(velocity.y as int, fwd.y as int, SPEED_LIMIT as int, AXIS_LIMIT as int);
        lemma_fmul_bound(velocity.z as int, fwd.z as int, SPEED_LIMIT as int, AXIS_LIMIT as int);
        assert((SPEED_LIMIT as int) * (AXIS_LIMIT as int) / (SCALE as int) <= 0x500_0000_0000int)
            by (nonlinear_arith)
            requires
                SPEED_LIMIT == 0x4000_0000i64,
                AXIS_LIMIT == 1_100_000i64,
                SCALE == 1_000_000i64,
        ;
        assert(fwd == neg_v(pose.z_axis));
    }
    let d = velocity.dot(fwd);
    airspeed.0 = d;
}

/// Recompute the world-frame centre of gravity from the pose and the
/// body-frame centre of mass the physics engine reports.
pub fn update_centre_of_gravity(
    centre_of_gravity: &mut CentreOfGravity,
    pose: &Pose,
    local_centre_of_mass: Vec3,
)
    requires
        pose.wf(),
        in_range(local_centre_of_mass, 0x4_0000_0000),
    ensures
        final(centre_of_gravity).local == local_centre_of_mass,
        final(centre_of_gravity).global.x as int == pose.translation.x + rot_x(
            *pose,
            local_centre_of_mass,
        ),
        final(centre_of_gravity).global.y as int == pose.translation.y + rot_y(
            *pose,
            local_centre_of_mass,
        ),
        final(centre_of_gravity).global.z as int == pose.translation.z + rot_z(
            *pose,
            local_centre_of_mass,
        ),
        in_range(final(centre_of_gravity).global, COG_LIMIT as int),
{
    proof {
        lemma_rot_in_range(*pose, local_centre_of_mass, 0x4_0000_0000);
    }
    let global = pose.transform_point(local_centre_of_mass);
    centre_of_gravity.local = local_centre_of_mass;
    centre_of_gravity.global = global;
}

/// Rotating a vector with components within `kv` by near-unit axes keeps
/// every product term and every rotated component within three doubled
/// bounds.
pub proof fn lemma_rot_in_range(p: Pose, v: Vec3, kv: int)
    requires
        p.axes_in_range(AXIS_LIMIT as int),
        in_range(v, kv),
        0 <= kv <= 0x4_0000_0000_0000,
    ensures
        rot_fits(p, v),
        abs_i(rot_x(p, v)) <= 6 * kv,
        abs_i(rot_y(p, v)) <= 6 * kv,
        abs_i(rot_z(p, v)) <= 6 * kv,
{
    assert forall|a: int, b: int| abs_i(a) <= kv && abs_i(b) <= AXIS_LIMIT as int implies abs_i(
        fmul(a, b),
    ) <= 2 * kv by {
        lemma_fmul_bound(a, b, kv, AXIS_LIMIT as int);
        assert(kv * (AXIS_LIMIT as int) / (SCALE as int) <= 2 * kv) by (nonlinear_arith)
            requires
                0 <= kv,
                AXIS_LIMIT == 1_100_000i64,
                SCALE == 1_000_000i64,
        ;
    }
}

/// The world-frame thrust force: the nose direction scaled by the thrust
/// scalar, one component at a time.
pub open spec fn thrust_force_c(p: Pose, thrust: int, c: int) -> int {
    if c == 0 {
        fmul(neg_v(p.z_axis).x as int, thrust)
    } else if c == 1 {
        fmul(neg_v(p.z_axis).y as int, thrust)
    } else {
        fmul(neg_v(p.z_axis).z as int, thrust)
    }
}

/// The thrust application point: half the fuselage length ahead of the
/// aircraft origin along the nose direction, one component at a time.
pub open spec fn thrust_point_c(spec: PlaneSpec, p: Pose, c: int) -> int {
    let half_len = fmul(spec.fuselage.size.z as int, HALF as int);
    if c == 0 {
        p.translation.x + fmul(neg_v(p.z_axis).x as int, half_len)
    } else if c == 1 {
        p.translation.y + fmul(neg_v(p.z_axis).y as int, half_len)
    } else {
        p.translation.z + fmul(neg_v(p.z_axis).z as int, half_len)
    }
}

/// The pair the thrust stage leaves in the accumulator.
pub open spec fn thrust_pair_s(spec: PlaneSpec, p: Pose, thrust: int, cog: Vec3) -> ForceTorque {
    let fx = thrust_force_c(p, thrust, 0);
    let fy = thrust_force_c(p, thrust, 1);
    let fz = thrust_force_c(p, thrust, 2);
    let dx = thrust_point_c(spec, p, 0) - cog.x;
    let dy = thrust_point_c(spec, p, 1) - cog.y;
    let dz = thrust_point_c(spec, p, 2) - cog.z;
    ForceTorque {
        fx: fx,
        fy: fy,
        fz: fz,
        tx: dy * fz - dz * fy,
        ty: dz * fx - dx * fz,
        tz: dx * fy - dy * fx,
    }
}

/// Reset the accumulated pair and write the tick's thrust contribution:
/// the thrust force along the nose direction, applied at the nose-mounted
/// propulsion point, decomposed about the centre of gravity.
pub fn update_thrust_forces(
    spec: &PlaneSpec,
    thrust: &Thrust,
    pose: &Pose,
    centre_of_gravity: &CentreOfGravity,
    external_force: &mut ExternalForce,
)
    requires
        spec.wf(),
        pose.wf(),
        0 <= thrust.0 <= spec.thrust,
        in_range(centre_of_gravity.global, COG_LIMIT as int),
    ensures
        final(external_force).force.x as int == thrust_force_c(*pose, thrust.0 as int, 0),
        final(external_force).force.y as int == thrust_force_c(*pose, thrust.0 as int, 1),
        final(external_force).force.z as int == thrust_force_c(*pose, thrust.0 as int, 2),
        final(external_force).torque.x == (thrust_point_c(*spec, *pose, 1)
            - centre_of_gravity.global.y) * thrust_force_c(*pose, thrust.0 as int, 2) - (
        thrust_point_c(*spec, *pose, 2) - centre_of_gravity.global.z) * thrust_force_c(
            *pose,
            thrust.0 as int,
            1,
        ),
        final(external_force).torque.y == (thrust_point_c(*spec, *pose, 2)
            - centre_of_gravity.global.z) * thrust_force_c(*pose, thrust.0 as int, 0) - (
        thrust_point_c(*spec, *pose, 0) - centre_of_gravity.global.x) * thrust_force_c(
            *pose,
            thrust.0 as int,
            2,
        ),
        final(external_force).torque.z == (thrust_point_c(*spec, *pose, 0)
            - centre_of_gravity.global.x) * thrust_force_c(*pose, thrust.0 as int, 1) - (
        thrust_point_c(*spec, *pose, 1) - centre_of_gravity.global.y) * thrust_force_c(
            *pose,
            thrust.0 as int,
            0,
        ),
        in_range(final(external_force).force, 0x4_0000_0000_0000),
        abs_i(final(external_force).torque.x as int) <= 0x10_0000_0000_0000_0000_0000_0000,
        abs_i(final(external_force).torque.y as int) <= 0x10_0000_0000_0000_0000_0000_0000,
        abs_i(final(external_force).torque.z as int) <= 0x10_0000_0000_0000_0000_0000_0000,
        ForceTorque::of(*final(external_force)) == thrust_pair_s(
            *spec,
            *pose,
            thrust.0 as int,
            centre_of_gravity.global,
        ),
{
    let fwd = pose.forward();
    proof {
        assert(fwd == neg_v(pose.z_axis));
        assert forall|t: int| 0 <= t <= THRUST_LIMIT as int && abs_i(fwd.x as int) <= AXIS_LIMIT
            as int implies abs_i(fmul(fwd.x as int, t)) <= 0x4_0000_0000_0000int by {
            lemma_fmul_bound(fwd.x as int, t, AXIS_LIMIT as int, THRUST_LIMIT as int);
            assert((AXIS_LIMIT as int) * (THRUST_LIMIT as int) / (SCALE as int)
                <= 0x4_0000_0000_0000int) by (nonlinear_arith)
                requires
                    AXIS_LIMIT == 1_100_000i64,
                    THRUST_LIMIT == 0x100_0000_0000i64,
                    SCALE == 1_000_000i64,
            ;
        }
        lemma_fmul_bound(fwd.y as int, thrust.0 as int, AXIS_LIMIT as int, THRUST_LIMIT as int);
        lemma_fmul_bound(fwd.z as int, thrust.0 as int, AXIS_LIMIT as int, THRUST_LIMIT as int);
        assert((AXIS_LIMIT as int) * (THRUST_LIMIT as int) / (SCALE as int)
            <= 0x4_0000_0000_0000int) by (nonlinear_arith)
            requires
                AXIS_LIMIT == 1_100_000i64,
                THRUST_LIMIT == 0x100_0000_0000i64,
                SCALE == 1_000_000i64,
        ;
        lemma_fmul_bound(
            spec.fuselage.size.z as int,
            HALF as int,
            crate::plane_spec::SIZE_LIMIT as int,
            HALF as int,
        );
        assert((crate::plane_spec::SIZE_LIMIT as int) * (HALF as int) / (SCALE as int)
            <= 0x4000_0000int) by (nonlinear_arith)
            requires
                crate::plane_spec::SIZE_LIMIT == 0x4000_0000i64,
                HALF == 500_000i64,
                SCALE == 1_000_000i64,
        ;
        lemma_fmul_bound(fwd.x as int, fmul(spec.fuselage.size.z as int, HALF as int), AXIS_LIMIT as int, 0x4000_0000);
        lemma_fmul_bound(fwd.y as int, fmul(spec.fuselage.size.z as int, HALF as int), AXIS_LIMIT as int, 0x4000_0000);
        lemma_fmul_bound(fwd.z as int, fmul(spec.fuselage.size.z as int, HALF as int), AXIS_LIMIT as int, 0x4000_0000);
        assert((AXIS_LIMIT as int) * 0x4000_0000int / (SCALE as int) <= 0x1_0000_0000int)
            by (nonlinear_arith)
            requires
                AXIS_LIMIT == 1_100_000i64,
                SCALE == 1_000_000i64,
        ;
    }
    let force = fwd.scaled(thrust.0);
    let half_len = fx_mul(spec.fuselage.size.z, HALF);
    let point = pose.translation.plus(fwd.scaled(half_len));
    proof {
        let cogv = centre_of_gravity.global;
        assert(0x400_0000_0000int * 0x4_0000_0000_0000int
            <= 0x8_0000_0000_0000_0000_0000_0000int) by (nonlinear_arith);
        crate::fixed::lemma_mul_abs_bound(point.y - cogv.y, force.z as int, 0x400_0000_0000, 0x4_0000_0000_0000);
        crate::fixed::lemma_mul_abs_bound(point.z - cogv.z, force.y as int, 0x400_0000_0000, 0x4_0000_0000_0000);
        crate::fixed::lemma_mul_abs_bound(point.z - cogv.z, force.x as int, 0x400_0000_0000, 0x4_0000_0000_0000);
        crate::fixed::lemma_mul_abs_bound(point.x - cogv.x, force.z as int, 0x400_0000_0000, 0x4_0000_0000_0000);
        crate::fixed::lemma_mul_abs_bound(point.x - cogv.x, force.y as int, 0x400_0000_0000, 0x4_0000_0000_0000);
        crate::fixed::lemma_mul_abs_bound(point.y - cogv.y, force.x as int, 0x400_0000_0000, 0x4_0000_0000_0000);
    }
    *external_force = ExternalForce::at_point(force, point, centre_of_gravity.global);
}

/// A force/torque pair as unbounded integers, for stating what
/// accumulation computes.
pub ghost struct ForceTorque {
    pub fx: int,
    pub fy: int,
    pub fz: int,
    pub tx: int,
    pub ty: int,
    pub tz: int,
}

impl ForceTorque {
    /// The pair an accumulator holds.
    pub open spec fn of(e: ExternalForce) -> ForceTorque {
        ForceTorque {
            fx: e.force.x as int,
            fy: e.force.y as int,
            fz: e.force.z as int,
            tx: e.torque.x as int,
            ty: e.torque.y as int,
            tz: e.torque.z as int,
        }
    }

    pub open spec fn plus(self, o: ForceTorque) -> ForceTorque {
        ForceTorque {
            fx: self.fx + o.fx,
            fy: self.fy + o.fy,
            fz: self.fz + o.fz,
            tx: self.tx + o.tx,
            ty: self.ty + o.ty,
            tz: self.tz + o.tz,
        }
    }

    pub open spec fn zero() -> ForceTorque {
        ForceTorque { fx: 0, fy: 0, fz: 0, tx: 0, ty: 0, tz: 0 }
    }
}

/// Dynamic pressure: half the sea-level air density times the square of
/// the airspeed, evaluated left to right in fixed point.
pub open spec fn dynamic_pressure_s(airspeed: int) -> int {
    fmul(fmul(fmul(HALF as int, AIR_DENSITY as int), airspeed), airspeed)
}

/// The local angle of attack of a mounted surface, in whole degrees: its
/// own lift reference axis against the aircraft's velocity.
pub open spec fn airfoil_aoa_s(m: MountedAirfoil, p: Pose, velocity: Vec3) -> int {
    crate::trig::angle_of_attack_s(
        velocity,
        force_base_dir_s(m.airfoil.orientation, p),
        neg_v(p.z_axis),
    )
}

/// The effective lift coefficient of a surface: the base table sampled at
/// its angle of attack, plus the control model's additive modifier.
pub open spec fn lift_coefficient_sum_s(m: MountedAirfoil, p: Pose, velocity: Vec3) -> int {
    m.airfoil.lift_coefficient_samples.lookup_s(airfoil_aoa_s(m, p, velocity) * (SCALE as int))
        + m.airfoil.lift_coefficient_modifier
}

/// The lift force magnitude of a surface: effective coefficient, dynamic
/// pressure, area, multiplied left to right.
pub open spec fn airfoil_lift_s(m: MountedAirfoil, p: Pose, velocity: Vec3, q: int) -> int {
    fmul(fmul(lift_coefficient_sum_s(m, p, velocity), q), m.airfoil.area as int)
}

/// The drag force magnitude of a surface: drag coefficient at the same
/// angle of attack, dynamic pressure, area.
pub open spec fn airfoil_drag_s(m: MountedAirfoil, p: Pose, velocity: Vec3, q: int) -> int {
    fmul(
        fmul(
            m.airfoil.drag_coefficient_samples.lookup_s(
                airfoil_aoa_s(m, p, velocity) * (SCALE as int),
            ),
            q,
        ),
        m.airfoil.area as int,
    )
}

/// A component of the world position a mounted surface applies its force
/// at: the aircraft origin carried by the pose, plus the rotated mounting
/// offset.
pub open spec fn station_c(p: Pose, off: Vec3, c: int) -> int {
    if c == 0 {
        p.translation.x + rot_x(p, off)
    } else if c == 1 {
        p.translation.y + rot_y(p, off)
    } else {
        p.translation.z + rot_z(p, off)
    }
}

/// A component of the lift force vector: the surface's lift axis scaled
/// by the lift magnitude.
pub open spec fn lift_force_c(m: MountedAirfoil, p: Pose, velocity: Vec3, q: int, c: int) -> int {
    let dir = force_base_dir_s(m.airfoil.orientation, p);
    let l = airfoil_lift_s(m, p, velocity, q);
    if c == 0 {
        fmul(dir.x as int, l)
    } else if c == 1 {
        fmul(dir.y as int, l)
    } else {
        fmul(dir.z as int, l)
    }
}

/// A component of the drag force vector: opposite the aircraft's velocity
/// direction, scaled by the drag magnitude; zero at zero velocity.
pub open spec fn drag_force_c(m: MountedAirfoil, p: Pose, velocity: Vec3, q: int, c: int) -> int {
    let n = norm_fx(velocity);
    let d = airfoil_drag_s(m, p, velocity, q);
    if c == 0 {
        fmul(-unit_comp(velocity.x as int, n), d)
    } else if c == 1 {
        fmul(-unit_comp(velocity.y as int, n), d)
    } else {
        fmul(-unit_comp(velocity.z as int, n), d)
    }
}

/// The whole contribution of one mounted surface: lift and drag forces,
/// each decomposed about the centre of gravity through the surface's
/// application point.
pub open spec fn airfoil_contribution_s(
    m: MountedAirfoil,
    p: Pose,
    velocity: Vec3,
    q: int,
    cog: Vec3,
) -> ForceTorque {
    let dx = station_c(p, m.offset, 0) - cog.x;
    let dy = station_c(p, m.offset, 1) - cog.y;
    let dz = station_c(p, m.offset, 2) - cog.z;
    let lfx = lift_force_c(m, p, velocity, q, 0);
    let lfy = lift_force_c(m, p, velocity, q, 1);
    let lfz = lift_force_c(m, p, velocity, q, 2);
    let dfx = drag_force_c(m, p, velocity, q, 0);
    let dfy = drag_force_c(m, p, velocity, q, 1);
    let dfz = drag_force_c(m, p, velocity, q, 2);
    ForceTorque {
        fx: lfx + dfx,
        fy: lfy + dfy,
        fz: lfz + dfz,
        tx: (dy * lfz - dz * lfy) + (dy * dfz - dz * dfy),
        ty: (dz * lfx - dx * lfz) + (dz * dfx - dx * dfz),
        tz: (dx * lfy - dy * lfx) + (dx * dfy - dy * dfx),
    }
}

/// The summed contributions of a sequence of mounted surfaces.
pub open spec fn airfoils_forces_s(
    afs: Seq<MountedAirfoil>,
    p: Pose,
    velocity: Vec3,
    q: int,
    cog: Vec3,
) -> ForceTorque
    decreases afs.len(),
{
    if afs.len() == 0 {
        ForceTorque::zero()
    } else {
        airfoils_forces_s(afs.drop_last(), p, velocity, q, cog).plus(
            airfoil_contribution_s(afs.last(), p, velocity, q, cog),
        )
    }
}

/// Everything one loop iteration of the force composer computes stays
/// within fixed bounds: coefficients, magnitudes, force components, the
/// application-point offset, and the torque products.
pub proof fn lemma_airfoil_step_bounds(
    m: MountedAirfoil,
    p: Pose,
    velocity: Vec3,
    q: int,
    cog: Vec3,
)
    requires
        m.wf(),
        p.wf(),
        in_range(velocity, SPEED_LIMIT as int),
        abs_i(q) <= 0x1000_0000_0000,
        in_range(cog, COG_LIMIT as int),
    ensures
        abs_i(lift_coefficient_sum_s(m, p, velocity)) <= 0x400_0000,
        abs_i(fmul(lift_coefficient_sum_s(m, p, velocity), q)) <= 0x8_0000_0000_0000,
        abs_i(airfoil_lift_s(m, p, velocity, q)) <= 0x100_0000_0000_0000,
        abs_i(
            m.airfoil.drag_coefficient_samples.lookup_s(
                airfoil_aoa_s(m, p, velocity) * (SCALE as int),
            ),
        ) <= crate::curve::SAMPLE_BOUND as int,
        abs_i(
            fmul(
                m.airfoil.drag_coefficient_samples.lookup_s(
                    airfoil_aoa_s(m, p, velocity) * (SCALE as int),
                ),
                q,
            ),
        ) <= 0x8_0000_0000_0000,
        abs_i(airfoil_drag_s(m, p, velocity, q)) <= 0x100_0000_0000_0000,
        forall|c: int| 0 <= c < 3 ==> abs_i(#[trigger] lift_force_c(m, p, velocity, q, c))
            <= 0x200_0000_0000_0000,
        forall|c: int| 0 <= c < 3 ==> abs_i(#[trigger] drag_force_c(m, p, velocity, q, c))
            <= 0x200_0000_0000_0000,
        rot_fits(p, m.offset),
        forall|c: int| 0 <= c < 3 ==> abs_i(#[trigger] station_c(p, m.offset, c))
            <= 0x200_0000_0000,
        abs_i(airfoil_contribution_s(m, p, velocity, q, cog).fx) <= 0x400_0000_0000_0000,
        abs_i(airfoil_contribution_s(m, p, velocity, q, cog).fy) <= 0x400_0000_0000_0000,
        abs_i(airfoil_contribution_s(m, p, velocity, q, cog).fz) <= 0x400_0000_0000_0000,
        abs_i(airfoil_contribution_s(m, p, velocity, q, cog).tx)
            <= 0x20_0000_0000_0000_0000_0000_0000,
        abs_i(airfoil_contribution_s(m, p, velocity, q, cog).ty)
            <= 0x20_0000_0000_0000_0000_0000_0000,
        abs_i(airfoil_contribution_s(m, p, velocity, q, cog).tz)
            <= 0x20_0000_0000_0000_0000_0000_0000,
{
    let a = airfoil_aoa_s(m, p, velocity) * (SCALE as int);
    let lc = m.airfoil.lift_coefficient_samples.lookup_s(a);
    let dc = m.airfoil.drag_coefficient_samples.lookup_s(a);
    assert(0 <= crate::curve::table_index(a) < 180);
    assert(abs_i(lc) <= crate::curve::SAMPLE_BOUND as int);
    assert(abs_i(dc) <= crate::curve::SAMPLE_BOUND as int);
    let cs = lift_coefficient_sum_s(m, p, velocity);
    assert(abs_i(cs) <= 0x400_0000);
    lemma_fmul_bound(cs, q, 0x400_0000, 0x1000_0000_0000);
    lemma_fmul_bound(dc, q, 0x400_0000, 0x1000_0000_0000);
    assert(0x400_0000int * 0x1000_0000_0000int / (SCALE as int) <= 0x8_0000_0000_0000int)
        by (nonlinear_arith)
        requires
            SCALE == 1_000_000i64,
    ;
    lemma_fmul_bound(fmul(cs, q), m.airfoil.area as int, 0x8_0000_0000_0000, AREA_LIMIT as int);
    lemma_fmul_bound(fmul(dc, q), m.airfoil.area as int, 0x8_0000_0000_0000, AREA_LIMIT as int);
    assert(0x8_0000_0000_0000int * (AREA_LIMIT as int) / (SCALE as int) <= 0x100_0000_0000_0000int)
        by (nonlinear_arith)
        requires
            AREA_LIMIT == 0x100_0000i64,
            SCALE == 1_000_000i64,
    ;
    let l = airfoil_lift_s(m, p, velocity, q);
    let d = airfoil_drag_s(m, p, velocity, q);
    let dir = force_base_dir_s(m.airfoil.orientation, p);
    assert forall|c: int| 0 <= c < 3 implies abs_i(#[trigger] lift_force_c(m, p, velocity, q, c))
        <= 0x200_0000_0000_0000 by {
        let dc2: int = if c == 0 {
            dir.x as int
        } else if c == 1 {
            dir.y as int
        } else {
            dir.z as int
        };
        lemma_fmul_bound(dc2, l, AXIS_LIMIT as int, 0x100_0000_0000_0000);
        assert((AXIS_LIMIT as int) * 0x100_0000_0000_0000int / (SCALE as int)
            <= 0x200_0000_0000_0000int) by (nonlinear_arith)
            requires
                AXIS_LIMIT == 1_100_000i64,
                SCALE == 1_000_000i64,
        ;
        assert(fmul(dc2, l) == lift_force_c(m, p, velocity, q, c));
    }
    let n = norm_fx(velocity);
    assert forall|c: int| 0 <= c < 3 implies abs_i(#[trigger] drag_force_c(m, p, velocity, q, c))
        <= 0x200_0000_0000_0000 by {
        let vc: int = if c == 0 {
            velocity.x as int
        } else if c == 1 {
            velocity.y as int
        } else {
            velocity.z as int
        };
        lemma_unit_bounds(velocity);
        lemma_fmul_bound(-unit_comp(vc, n), d, SCALE as int, 0x100_0000_0000_0000);
        assert((SCALE as int) * 0x100_0000_0000_0000int / (SCALE as int) <= 0x200_0000_0000_0000int)
            by (nonlinear_arith)
            requires
                SCALE == 1_000_000i64,
        ;
        assert(fmul(-unit_comp(vc, n), d) == drag_force_c(m, p, velocity, q, c));
    }
    lemma_rot_in_range(p, m.offset, crate::airfoil::OFFSET_LIMIT as int);
    assert forall|c: int| 0 <= c < 3 implies abs_i(#[trigger] station_c(p, m.offset, c))
        <= 0x200_0000_0000 by {
        assert(6 * (crate::airfoil::OFFSET_LIMIT as int) <= 0x18_0000_0000int);
    }
    let ct = airfoil_contribution_s(m, p, velocity, q, cog);
    let dx = station_c(p, m.offset, 0) - cog.x;
    let dy = station_c(p, m.offset, 1) - cog.y;
    let dz = station_c(p, m.offset, 2) - cog.z;
    assert(abs_i(dx) <= 0x400_0000_0000 && abs_i(dy) <= 0x400_0000_0000 && abs_i(dz)
        <= 0x400_0000_0000);
    assert(0x400_0000_0000int * 0x200_0000_0000_0000int == 0x8_0000_0000_0000_0000_0000_0000int)
        by (nonlinear_arith);
    crate::fixed::lemma_mul_abs_bound(dy, lift_force_c(m, p, velocity, q, 2), 0x400_0000_0000, 0x200_0000_0000_0000);
    crate::fixed::lemma_mul_abs_bound(dz, lift_force_c(m, p, velocity, q, 1), 0x400_0000_0000, 0x200_0000_0000_0000);
    crate::fixed::lemma_mul_abs_bound(dz, lift_force_c(m, p, velocity, q, 0), 0x400_0000_0000, 0x200_0000_0000_0000);
    crate::fixed::lemma_mul_abs_bound(dx, lift_force_c(m, p, velocity, q, 2), 0x400_0000_0000, 0x200_0000_0000_0000);
    crate::fixed::lemma_mul_abs_bound(dx, lift_force_c(m, p, velocity, q, 1), 0x400_0000_0000, 0x200_0000_0000_0000);
    crate::fixed::lemma_mul_abs_bound(dy, lift_force_c(m, p, velocity, q, 0), 0x400_0000_0000, 0x200_0000_0000_0000);
    crate::fixed::lemma_mul_abs_bound(dy, drag_force_c(m, p, velocity, q, 2), 0x400_0000_0000, 0x200_0000_0000_0000);
    crate::fixed::lemma_mul_abs_bound(dz, drag_force_c(m, p, velocity, q, 1), 0x400_0000_0000, 0x200_0000_0000_0000);
    crate::fixed::lemma_mul_abs_bound(dz, drag_force_c(m, p, velocity, q, 0), 0x400_0000_0000, 0x200_0000_0000_0000);
    crate::fixed::lemma_mul_abs_bound(dx, drag_force_c(m, p, velocity, q, 2), 0x400_0000_0000, 0x200_0000_0000_0000);
    crate::fixed::lemma_mul_abs_bound(dx, drag_force_c(m, p, velocity, q, 1), 0x400_0000_0000, 0x200_0000_0000_0000);
    crate::fixed::lemma_mul_abs_bound(dy, drag_force_c(m, p, velocity, q, 0), 0x400_0000_0000, 0x200_0000_0000_0000);
    assert(abs_i(ct.tx) <= 0x20_0000_0000_0000_0000_0000_0000);
    assert(abs_i(ct.ty) <= 0x20_0000_0000_0000_0000_0000_0000);
    assert(abs_i(ct.tz) <= 0x20_0000_0000_0000_0000_0000_0000);
}

/// The components of a normalized vector stay within one fixed-point
/// unit.
proof fn lemma_unit_bounds(v: Vec3)
    ensures
        abs_i(unit_comp(v.x as int, norm_fx(v))) <= SCALE as int,
        abs_i(unit_comp(v.y as int, norm_fx(v))) <= SCALE as int,
        abs_i(unit_comp(v.z as int, norm_fx(v))) <= SCALE as int,
{
    crate::vec3::lemma_comp_le_norm(v);
    let n = norm_fx(v);
    if n != 0 {
        assert(n >= 1);
        assert(abs_i(tdiv((v.x as int) * (SCALE as int), n)) <= SCALE as int) by (nonlinear_arith)
            requires
                abs_i(v.x as int) <= n,
                1 <= n,
                SCALE == 1_000_000i64,
        ;
        assert(abs_i(tdiv((v.y as int) * (SCALE as int), n)) <= SCALE as int) by (nonlinear_arith)
            requires
                abs_i(v.y as int) <= n,
                1 <= n,
                SCALE == 1_000_000i64,
        ;
        assert(abs_i(tdiv((v.z as int) * (SCALE as int), n)) <= SCALE as int) by (nonlinear_arith)
            requires
                abs_i(v.z as int) <= n,
                1 <= n,
                SCALE == 1_000_000i64,
        ;
    }
}

/// One surface after the force composer ran: angle of attack and lift
/// readouts written, everything else untouched.
pub open spec fn forces_applied(
    prev: MountedAirfoil,
    next: MountedAirfoil,
    p: Pose,
    velocity: Vec3,
    q: int,
) -> bool {
    &&& next.position == prev.position
    &&& next.offset == prev.offset
    &&& next.airfoil == prev.airfoil
    &&& next.control_deflection == prev.control_deflection
    &&& next.angle_of_attack.0 as int == airfoil_aoa_s(prev, p, velocity)
    &&& next.lift.0 as int == airfoil_lift_s(prev, p, velocity, q)
}

/// Compute the dynamic pressure of the tick from the scalar airspeed.
fn dynamic_pressure(airspeed: &Airspeed) -> (q: i64)
    requires
        abs_i(airspeed.0 as int) <= AIRSPEED_LIMIT as int,
    ensures
        q as int == dynamic_pressure_s(airspeed.0 as int),
        abs_i(q as int) <= 0x1000_0000_0000,
{
    proof {
        assert(fmul(HALF as int, AIR_DENSITY as int) == 612_500) by (nonlinear_arith)
            requires
                HALF == 500_000i64,
                AIR_DENSITY == 1_225_000i64,
                SCALE == 1_000_000i64,
        ;
        lemma_fmul_bound(612_500, airspeed.0 as int, 612_500, AIRSPEED_LIMIT as int);
        assert(612_500int * (AIRSPEED_LIMIT as int) / (SCALE as int) <= 2_630_667_469int)
            by (nonlinear_arith)
            requires
                AIRSPEED_LIMIT == 0x1_0000_0000i64,
                SCALE == 1_000_000i64,
        ;
        lemma_fmul_bound(
            fmul(fmul(HALF as int, AIR_DENSITY as int), airspeed.0 as int),
            airspeed.0 as int,
            2_630_667_469,
            AIRSPEED_LIMIT as int,
        );
        assert(2_630_667_469int * (AIRSPEED_LIMIT as int) / (SCALE as int) <= 0x1000_0000_0000int)
            by (nonlinear_arith)
            requires
                AIRSPEED_LIMIT == 0x1_0000_0000i64,
                SCALE == 1_000_000i64,
        ;
    }
    let hd = fx_mul(HALF, AIR_DENSITY);
    let a1 = fx_mul(hd, airspeed.0);
    fx_mul(a1, airspeed.0)
}

/// The algorithmic core of the model.  For every mounted surface: its
/// local angle of attack against the aircraft's velocity, the lift from
/// its sampled table and modifier, the drag from its drag table, both
/// scaled by the tick's dynamic pressure and the surface's area, each
/// decomposed about the centre of gravity through the surface's
/// application point, and all accumulated onto the tick's external force
/// and torque.  No step can fail: zero velocity yields zero aerodynamic
/// force, out-of-domain angles clamp to the table boundary.
#[verifier::rlimit(100)]
pub fn update_airfoil_forces(
    airfoils: &mut Vec<MountedAirfoil>,
    pose: &Pose,
    velocity: Vec3,
    airspeed: &Airspeed,
    centre_of_gravity: &CentreOfGravity,
    external_force: &mut ExternalForce,
    flight: &mut PlaneFlight,
)
    requires
        pose.wf(),
        in_range(velocity, SPEED_LIMIT as int),
        abs_i(airspeed.0 as int) <= AIRSPEED_LIMIT as int,
        in_range(centre_of_gravity.global, COG_LIMIT as int),
        old(airfoils)@.len() <= 16,
        forall|i: int| 0 <= i < old(airfoils)@.len() ==> (#[trigger] old(airfoils)@[i]).wf(),
        in_range(old(external_force).force, 0x4_0000_0000_0000),
        abs_i(old(external_force).torque.x as int) <= 0x10_0000_0000_0000_0000_0000_0000,
        abs_i(old(external_force).torque.y as int) <= 0x10_0000_0000_0000_0000_0000_0000,
        abs_i(old(external_force).torque.z as int) <= 0x10_0000_0000_0000_0000_0000_0000,
    ensures
        final(airfoils)@.len() == old(airfoils)@.len(),
        forall|i: int|
            0 <= i < old(airfoils)@.len() ==> forces_applied(
                old(airfoils)@[i],
                #[trigger] final(airfoils)@[i],
                *pose,
                velocity,
                dynamic_pressure_s(airspeed.0 as int),
            ),
        ForceTorque::of(*final(external_force)) == ForceTorque::of(*old(external_force)).plus(
            airfoils_forces_s(
                old(airfoils)@,
                *pose,
                velocity,
                dynamic_pressure_s(airspeed.0 as int),
                centre_of_gravity.global,
            ),
        ),
        final(flight).angle_of_attack == old(flight).angle_of_attack,
        final(flight).weight == old(flight).weight,
        old(airfoils)@.len() > 0 ==> final(flight).drag as int == airfoil_drag_s(
            old(airfoils)@[old(airfoils)@.len() - 1],
            *pose,
            velocity,
            dynamic_pressure_s(airspeed.0 as int),
        ),
        old(airfoils)@.len() == 0 ==> final(flight).drag == old(flight).drag,
{
    let q = dynamic_pressure(airspeed);
    let n = airfoils.len();
    let mut i: usize = 0;
    while i < n
        invariant
            n == airfoils@.len(),
            n == old(airfoils)@.len() <= 16,
            0 <= i <= n,
            pose.wf(),
            in_range(velocity, SPEED_LIMIT as int),
            q as int == dynamic_pressure_s(airspeed.0 as int),
            abs_i(q as int) <= 0x1000_0000_0000,
            in_range(centre_of_gravity.global, COG_LIMIT as int),
            forall|k: int| 0 <= k < n ==> (#[trigger] old(airfoils)@[k]).wf(),
            forall|k: int| i <= k < n ==> #[trigger] airfoils@[k] == old(airfoils)@[k],
            forall|k: int|
                0 <= k < i ==> forces_applied(
                    old(airfoils)@[k],
                    #[trigger] airfoils@[k],
                    *pose,
                    velocity,
                    q as int,
                ),
            ForceTorque::of(*external_force) == ForceTorque::of(*old(external_force)).plus(
                airfoils_forces_s(
                    old(airfoils)@.take(i as int),
                    *pose,
                    velocity,
                    q as int,
                    centre_of_gravity.global,
                ),
            ),
            abs_i(external_force.force.x as int) <= 0x4_0000_0000_0000 + i
                * 0x400_0000_0000_0000,
            abs_i(external_force.force.y as int) <= 0x4_0000_0000_0000 + i
                * 0x400_0000_0000_0000,
            abs_i(external_force.force.z as int) <= 0x4_0000_0000_0000 + i
                * 0x400_0000_0000_0000,
            abs_i(external_force.torque.x as int) <= 0x10_0000_0000_0000_0000_0000_0000 + i
                * 0x20_0000_0000_0000_0000_0000_0000,
            abs_i(external_force.torque.y as int) <= 0x10_0000_0000_0000_0000_0000_0000 + i
                * 0x20_0000_0000_0000_0000_0000_0000,
            abs_i(external_force.torque.z as int) <= 0x10_0000_0000_0000_0000_0000_0000 + i
                * 0x20_0000_0000_0000_0000_0000_0000,
            flight.angle_of_attack == old(flight).angle_of_attack,
            flight.weight == old(flight).weight,
            i > 0 ==> flight.drag as int == airfoil_drag_s(
                old(airfoils)@[i - 1],
                *pose,
                velocity,
                q as int,
            ),
            i == 0 ==> flight.drag == old(flight).drag,
        decreases n - i,
    {
        proof {
            lemma_airfoil_step_bounds(
                airfoils@[i as int],
                *pose,
                velocity,
                q as int,
                centre_of_gravity.global,
            );
            crate::vec3::lemma_norm_pos(pose.x_axis);
            crate::vec3::lemma_norm_pos(pose.y_axis);
            crate::vec3::lemma_norm2_neg(pose.z_axis);
            crate::vec3::lemma_norm_pos(neg_v(pose.z_axis));
        }
        let dir = airfoils[i].airfoil.force_base_dir(pose);
        let fwd = pose.forward();
        proof {
            assert(fwd == neg_v(pose.z_axis));
        }
        let aoa = crate::trig::angle_of_attack(velocity, dir, fwd);
        let angle_fx = aoa * SCALE;
        let lc = airfoils[i].airfoil.lift_coefficient_samples.lookup(angle_fx);
        let lift_coefficient_total = lc + airfoils[i].airfoil.lift_coefficient_modifier;
        let lift = fx_mul(fx_mul(lift_coefficient_total, q), airfoils[i].airfoil.area);
        let lift_vec = dir.scaled(lift);
        let point = pose.transform_point(airfoils[i].offset);
        let lift_pair = ExternalForce::at_point(lift_vec, point, centre_of_gravity.global);
        proof {
            let prev = old(airfoils)@[i as int];
            let qi = q as int;
            let cogv = centre_of_gravity.global;
            assert(lift_vec.x as int == lift_force_c(prev, *pose, velocity, qi, 0) && lift_vec.y
                as int == lift_force_c(prev, *pose, velocity, qi, 1) && lift_vec.z as int
                == lift_force_c(prev, *pose, velocity, qi, 2));
            assert(point.x as int == station_c(*pose, prev.offset, 0) && point.y as int
                == station_c(*pose, prev.offset, 1) && point.z as int == station_c(
                *pose,
                prev.offset,
                2,
            ));
            assert(0x400_0000_0000int * 0x200_0000_0000_0000int
                == 0x8_0000_0000_0000_0000_0000_0000int) by (nonlinear_arith);
            crate::fixed::lemma_mul_abs_bound(point.y - cogv.y, lift_vec.z as int, 0x400_0000_0000, 0x200_0000_0000_0000);
            crate::fixed::lemma_mul_abs_bound(point.z - cogv.z, lift_vec.y as int, 0x400_0000_0000, 0x200_0000_0000_0000);
            crate::fixed::lemma_mul_abs_bound(point.z - cogv.z, lift_vec.x as int, 0x400_0000_0000, 0x200_0000_0000_0000);
            crate::fixed::lemma_mul_abs_bound(point.x - cogv.x, lift_vec.z as int, 0x400_0000_0000, 0x200_0000_0000_0000);
            crate::fixed::lemma_mul_abs_bound(point.x - cogv.x, lift_vec.y as int, 0x400_0000_0000, 0x200_0000_0000_0000);
            crate::fixed::lemma_mul_abs_bound(point.y - cogv.y, lift_vec.x as int, 0x400_0000_0000, 0x200_0000_0000_0000);
        }
        external_force.accumulate(lift_pair);
        let dc = airfoils[i].airfoil.drag_coefficient_samples.lookup(angle_fx);
        let drag = fx_mul(fx_mul(dc, q), airfoils[i].airfoil.area);
        let unit = velocity.normalize_or_zero();
        let drag_vec = unit.neg().scaled(drag);
        let drag_pair = ExternalForce::at_point(drag_vec, point, centre_of_gravity.global);
        proof {
            let prev = old(airfoils)@[i as int];
            let qi = q as int;
            let cogv = centre_of_gravity.global;
            assert(drag_vec.x as int == drag_force_c(prev, *pose, velocity, qi, 0) && drag_vec.y
                as int == drag_force_c(prev, *pose, velocity, qi, 1) && drag_vec.z as int
                == drag_force_c(prev, *pose, velocity, qi, 2));
            assert(0x400_0000_0000int * 0x200_0000_0000_0000int
                == 0x8_0000_0000_0000_0000_0000_0000int) by (nonlinear_arith);
            crate::fixed::lemma_mul_abs_bound(point.y - cogv.y, drag_vec.z as int, 0x400_0000_0000, 0x200_0000_0000_0000);
            crate::fixed::lemma_mul_abs_bound(point.z - cogv.z, drag_vec.y as int, 0x400_0000_0000, 0x200_0000_0000_0000);
            crate::fixed::lemma_mul_abs_bound(point.z - cogv.z, drag_vec.x as int, 0x400_0000_0000, 0x200_0000_0000_0000);
            crate::fixed::lemma_mul_abs_bound(point.x - cogv.x, drag_vec.z as int, 0x400_0000_0000, 0x200_0000_0000_0000);
            crate::fixed::lemma_mul_abs_bound(point.x - cogv.x, drag_vec.y as int, 0x400_0000_0000, 0x200_0000_0000_0000);
            crate::fixed::lemma_mul_abs_bound(point.y - cogv.y, drag_vec.x as int, 0x400_0000_0000, 0x200_0000_0000_0000);
        }
        external_force.accumulate(drag_pair);
        airfoils[i].angle_of_attack = AngleOfAttack(aoa);
        airfoils[i].lift = Lift(lift);
        flight.drag = drag;
        proof {
            let prev = old(airfoils)@[i as int];
            let qi = q as int;
            let cog = centre_of_gravity.global;
            assert(airfoils@.take(i as int + 1) =~= airfoils@.take(i as int).push(
                airfoils@[i as int],
            ));
            assert(old(airfoils)@.take(i as int + 1).drop_last() =~= old(airfoils)@.take(
                i as int,
            ));
            assert(old(airfoils)@.take(i as int + 1).last() == prev);
        }
        i = i + 1;
    }
    proof {
        assert(old(airfoils)@.take(n as int) =~= old(airfoils)@);
    }
}

/// The pair a single point force leaves about a centre: the force itself
/// and the offset crossed with it, at exact product scale.
pub open spec fn pair_at_s(f: Vec3, p: Vec3, c: Vec3) -> ForceTorque {
    ForceTorque {
        fx: f.x as int,
        fy: f.y as int,
        fz: f.z as int,
        tx: (p.y - c.y) * (f.z as int) - (p.z - c.z) * (f.y as int),
        ty: (p.z - c.z) * (f.x as int) - (p.x - c.x) * (f.z as int),
        tz: (p.x - c.x) * (f.y as int) - (p.y - c.y) * (f.x as int),
    }
}

/// Point-force decomposition is exactly linear: two equal pairs at the
/// same point sum to the pair of the doubled force at that point, so
/// re-deriving the single-point force from the sum gives exactly twice
/// the force.
pub proof fn lemma_pair_doubling(f: Vec3, f2: Vec3, p: Vec3, c: Vec3)
    requires
        f2.x == f.x + f.x,
        f2.y == f.y + f.y,
        f2.z == f.z + f.z,
    ensures
        pair_at_s(f, p, c).plus(pair_at_s(f, p, c)) == pair_at_s(f2, p, c),
{
    assert(pair_at_s(f, p, c).plus(pair_at_s(f, p, c)) == pair_at_s(f2, p, c))
        by (nonlinear_arith)
        requires
            f2.x == f.x + f.x,
            f2.y == f.y + f.y,
            f2.z == f.z + f.z,
    ;
}

/// At zero velocity no aerodynamic force arises: the airspeed, the
/// dynamic pressure, the lift and drag magnitudes, and the whole
/// contribution of every surface collapse to zero — for any surface, any
/// pose, and so any angle of attack.
pub proof fn lemma_zero_velocity_no_force(m: MountedAirfoil, p: Pose, velocity: Vec3, cog: Vec3)
    requires
        velocity.is_zero(),
    ensures
        airspeed_s(p, velocity) == 0,
        dynamic_pressure_s(airspeed_s(p, velocity)) == 0,
        airfoil_lift_s(m, p, velocity, dynamic_pressure_s(airspeed_s(p, velocity))) == 0,
        airfoil_drag_s(m, p, velocity, dynamic_pressure_s(airspeed_s(p, velocity))) == 0,
        airfoil_contribution_s(m, p, velocity, dynamic_pressure_s(airspeed_s(p, velocity)), cog)
            == ForceTorque::zero(),
{
    crate::fixed::lemma_fmul_zero(neg_v(p.z_axis).x as int);
    crate::fixed::lemma_fmul_zero(neg_v(p.z_axis).y as int);
    crate::fixed::lemma_fmul_zero(neg_v(p.z_axis).z as int);
    assert(airspeed_s(p, velocity) == 0);
    let q = dynamic_pressure_s(airspeed_s(p, velocity));
    crate::fixed::lemma_fmul_zero(fmul(HALF as int, AIR_DENSITY as int));
    crate::fixed::lemma_fmul_zero(fmul(fmul(HALF as int, AIR_DENSITY as int), 0));
    assert(q == 0);
    let cs = lift_coefficient_sum_s(m, p, velocity);
    crate::fixed::lemma_fmul_zero(cs);
    crate::fixed::lemma_fmul_zero(m.airfoil.area as int);
    assert(airfoil_lift_s(m, p, velocity, q) == 0);
    let dc = m.airfoil.drag_coefficient_samples.lookup_s(
        airfoil_aoa_s(m, p, velocity) * (SCALE as int),
    );
    crate::fixed::lemma_fmul_zero(dc);
    assert(airfoil_drag_s(m, p, velocity, q) == 0);
    let dir = force_base_dir_s(m.airfoil.orientation, p);
    crate::fixed::lemma_fmul_zero(dir.x as int);
    crate::fixed::lemma_fmul_zero(dir.y as int);
    crate::fixed::lemma_fmul_zero(dir.z as int);
    let n = norm_fx(velocity);
    crate::fixed::lemma_fmul_zero(-unit_comp(velocity.x as int, n));
    crate::fixed::lemma_fmul_zero(-unit_comp(velocity.y as int, n));
    crate::fixed::lemma_fmul_zero(-unit_comp(velocity.z as int, n));
    let ct = airfoil_contribution_s(m, p, velocity, q, cog);
    assert(ct.fx == 0 && ct.fy == 0 && ct.fz == 0);
    let dx = station_c(p, m.offset, 0) - cog.x;
    let dy = station_c(p, m.offset, 1) - cog.y;
    let dz = station_c(p, m.offset, 2) - cog.z;
    assert(dx * 0 == 0 && dy * 0 == 0 && dz * 0 == 0) by (nonlinear_arith);
    assert(ct.tx == 0 && ct.ty == 0 && ct.tz == 0);
}

/// At zero velocity the whole composition is the zero pair, whatever
/// surfaces the aircraft carries: the accumulator keeps exactly what the
/// thrust stage left in it.
pub proof fn lemma_zero_velocity_no_aero_total(
    afs: Seq<MountedAirfoil>,
    p: Pose,
    velocity: Vec3,
    cog: Vec3,
)
    requires
        velocity.is_zero(),
    ensures
        airfoils_forces_s(afs, p, velocity, dynamic_pressure_s(airspeed_s(p, velocity)), cog)
            == ForceTorque::zero(),
    decreases afs.len(),
{
    if afs.len() > 0 {
        lemma_zero_velocity_no_aero_total(afs.drop_last(), p, velocity, cog);
        lemma_zero_velocity_no_force(afs.last(), p, velocity, cog);
    }
}

/// Equal and opposite vertical forces at offsets mirrored across the
/// centreline cancel as a net force and leave a pure couple about the
/// roll axis: twice the spanwise arm times the vertical force, and
/// nothing about the other two axes.
pub proof fn lemma_differential_couple(f: Vec3, g: Vec3, pl: Vec3, pr: Vec3, c: Vec3)
    requires
        f.x == 0 && f.z == 0,
        g.x == 0 && g.z == 0,
        g.y == -(f.y as int),
        pr.x - c.x == -(pl.x - c.x),
        pr.y == pl.y,
        pr.z == pl.z,
    ensures
        pair_at_s(f, pl, c).plus(pair_at_s(g, pr, c)).fx == 0,
        pair_at_s(f, pl, c).plus(pair_at_s(g, pr, c)).fy == 0,
        pair_at_s(f, pl, c).plus(pair_at_s(g, pr, c)).fz == 0,
        pair_at_s(f, pl, c).plus(pair_at_s(g, pr, c)).tx == 0,
        pair_at_s(f, pl, c).plus(pair_at_s(g, pr, c)).ty == 0,
        pair_at_s(f, pl, c).plus(pair_at_s(g, pr, c)).tz == 2 * (pl.x - c.x) * (f.y as int),
        pl.x != c.x && f.y != 0 ==> pair_at_s(f, pl, c).plus(pair_at_s(g, pr, c)).tz != 0,
{
    let s = pair_at_s(f, pl, c).plus(pair_at_s(g, pr, c));
    assert(s.fx == 0 && s.fy == 0 && s.fz == 0);
    assert(s.tx == 0 && s.ty == 0 && s.tz == 2 * (pl.x - c.x) * (f.y as int))
        by (nonlinear_arith)
        requires
            s == pair_at_s(f, pl, c).plus(pair_at_s(g, pr, c)),
            f.x == 0 && f.z == 0,
            g.x == 0 && g.z == 0,
            g.y == -(f.y as int),
            pr.x - c.x == -(pl.x - c.x),
            pr.y == pl.y,
            pr.z == pl.z,
    ;
    if pl.x != c.x && f.y != 0 {
        assert(2 * (pl.x - c.x) * (f.y as int) != 0) by (nonlinear_arith)
            requires
                pl.x - c.x != 0,
                f.y != 0,
        ;
    }
}

/// The purely cosmetic propeller spin rate: the thrust fraction of the
/// aircraft's limit, scaled to the full-throttle rate.
pub fn propellor_rotation_rate(thrust: &Thrust, max_thrust: i64) -> (r: i64)
    requires
        0 < max_thrust <= THRUST_LIMIT,
        0 <= thrust.0 <= max_thrust,
    ensures
        r as int == fmul(tdiv(thrust.0 * (SCALE as int), max_thrust as int), PROPELLOR_FULL_RATE as int),
        0 <= r <= PROPELLOR_FULL_RATE,
{
    proof {
        assert(abs_i(thrust.0 * (SCALE as int)) <= (THRUST_LIMIT as int) * (SCALE as int)
            < 0x8000_0000_0000_0000_0000_0000_0000_0000int) by (nonlinear_arith)
            requires
                0 <= thrust.0 <= THRUST_LIMIT as int,
                THRUST_LIMIT == 0x100_0000_0000i64,
                SCALE == 1_000_000i64,
        ;
    }
    let num: i128 = (thrust.0 as i128) * (SCALE as i128);
    let ratio_wide = tdiv_i128(num, max_thrust as i128);
    proof {
        assert(tdiv(thrust.0 * (SCALE as int), max_thrust as int) <= SCALE as int
            && 0 <= tdiv(thrust.0 * (SCALE as int), max_thrust as int)) by (nonlinear_arith)
            requires
                0 <= thrust.0 <= max_thrust as int,
                0 < max_thrust as int,
                SCALE == 1_000_000i64,
        ;
    }
    let ratio = ratio_wide as i64;
    proof {
        lemma_fmul_bound(ratio as int, PROPELLOR_FULL_RATE as int, SCALE as int, PROPELLOR_FULL_RATE as int);
        assert((SCALE as int) * (PROPELLOR_FULL_RATE as int) / (SCALE as int)
            == PROPELLOR_FULL_RATE as int) by (nonlinear_arith)
            requires
                SCALE == 1_000_000i64,
                PROPELLOR_FULL_RATE == 62_831_853i64,
        ;
        assert(fmul(ratio as int, PROPELLOR_FULL_RATE as int) >= 0);
    }
    fx_mul(ratio, PROPELLOR_FULL_RATE)
}

} // verus!
