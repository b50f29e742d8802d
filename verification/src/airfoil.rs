//! Lifting surfaces: orientation, placement and per-surface state.

use vstd::prelude::*;

use crate::curve::CoefficientTable;
use crate::fixed::{abs_i, SCALE};
use crate::vec3::{Pose, Vec3};

verus! {

/// Largest planform area a surface may declare, in fixed-point square
/// metres.
pub const AREA_LIMIT: i64 = 0x100_0000;

/// Largest magnitude of a lift-coefficient modifier.
pub const MODIFIER_LIMIT: i64 = 4_000_000;

/// Which side of the aircraft a paired surface sits on.
#[derive(Clone, Copy, PartialEq, Eq, Structural, Debug)]
pub enum Side {
    Left,
    Right,
}

/// The sign a side contributes to a mirrored quantity, in fixed-point
/// steps: one for the left, minus one for the right.
pub open spec fn side_offset_s(s: Side) -> int {
    match s {
        Side::Left => SCALE as int,
        Side::Right => -(SCALE as int),
    }
}

impl Side {
    pub fn offset(&self) -> (r: i64)
        ensures
            r as int == side_offset_s(*self),
    {
        match self {
            Side::Left => SCALE,
            Side::Right => -SCALE,
        }
    }
}

/// Where a surface stands on the aircraft, which also decides which control
/// axis deflects it.
#[derive(Clone, Copy, PartialEq, Eq, Structural, Debug)]
pub enum AirfoilPosition {
    Wing(Side),
    TailWing(Side),
    VerticalTail,
}

/// Whether the surface's lift acts along the body's up axis or its right
/// axis.
#[derive(Clone, Copy, PartialEq, Eq, Structural, Debug)]
pub enum AirfoilOrientation {
    Horizontal,
    Vertical,
}

/// The direction a surface's lift acts along, in the world frame: the up
/// axis of its pose for a horizontal surface, the right axis for a vertical
/// one.
pub open spec fn force_base_dir_s(o: AirfoilOrientation, pose: Pose) -> Vec3 {
    match o {
        AirfoilOrientation::Horizontal => pose.y_axis,
        AirfoilOrientation::Vertical => pose.x_axis,
    }
}

/// One lifting surface: its orientation, planform area, the two sampled
/// coefficient tables, and the additive lift-coefficient modifier the
/// control model writes each tick.
#[derive(Debug)]
pub struct Airfoil {
    pub orientation: AirfoilOrientation,
    pub area: i64,
    pub lift_coefficient_samples: CoefficientTable,
    pub drag_coefficient_samples: CoefficientTable,
    pub lift_coefficient_modifier: i64,
}

impl Airfoil {
    /// Well-formed surface state: a bounded non-negative area, built
    /// tables, and a bounded modifier.
    pub open spec fn wf(self) -> bool {
        &&& 0 <= self.area <= AREA_LIMIT
        &&& self.lift_coefficient_samples.wf()
        &&& self.drag_coefficient_samples.wf()
        &&& abs_i(self.lift_coefficient_modifier as int) <= MODIFIER_LIMIT as int
    }

    /// The world direction this surface's lift acts along under the given
    /// pose.
    pub fn force_base_dir(&self, pose: &Pose) -> (r: Vec3)
        ensures
            r == force_base_dir_s(self.orientation, *pose),
    {
        match self.orientation {
            AirfoilOrientation::Horizontal => pose.up(),
            AirfoilOrientation::Vertical => pose.right(),
        }
    }
}

/// Signed angle of attack of one surface, in whole degrees.
#[derive(Clone, Copy, PartialEq, Eq, Structural, Debug)]
pub struct AngleOfAttack(pub i64);

/// Lift force magnitude of one surface, in fixed-point newtons.
#[derive(Clone, Copy, PartialEq, Eq, Structural, Debug)]
pub struct Lift(pub i64);

impl Default for AngleOfAttack {
    /// Aligned with the flow.
    fn default() -> (r: Self)
        ensures
            r.0 == 0,
    {
        AngleOfAttack(0)
    }
}

impl Default for Lift {
    /// No lift yet.
    fn default() -> (r: Self)
        ensures
            r.0 == 0,
    {
        Lift(0)
    }
}

/// A surface mounted on the aircraft: its position tag, its fixed offset
/// from the aircraft origin, the surface itself, the hinge deflection of
/// its movable control segment, and the per-tick readouts.
#[derive(Debug)]
pub struct MountedAirfoil {
    pub position: AirfoilPosition,
    pub offset: Vec3,
    pub airfoil: Airfoil,
    pub control_deflection: i64,
    pub angle_of_attack: AngleOfAttack,
    pub lift: Lift,
}

/// Largest magnitude of a mounting offset component, in fixed-point
/// metres.
pub const OFFSET_LIMIT: i64 = 0x4_0000_0000;

impl MountedAirfoil {
    pub open spec fn wf(self) -> bool {
        &&& self.airfoil.wf()
        &&& crate::vec3::in_range(self.offset, OFFSET_LIMIT as int)
    }
}

} // verus!
