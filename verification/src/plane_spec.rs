//! Static aircraft design data: thrust limit, fuselage dimensions, and one
//! wing specification per lift-producing surface group.  Immutable after
//! construction; a change of design rebuilds the aircraft from scratch.

use vstd::prelude::*;

use crate::airfoil::{AREA_LIMIT, MODIFIER_LIMIT};
use crate::curve::{points_in_limits, CoefficientTable, CurveError};
use crate::fixed::{abs_i, fmul};
use crate::vec3::{in_range, Vec3};

verus! {

/// Largest extent a fuselage or wing dimension may declare, in fixed-point
/// metres.
pub const SIZE_LIMIT: i64 = 0x4000_0000;

/// Largest engine thrust a design may declare, in fixed-point newtons.
pub const THRUST_LIMIT: i64 = 0x100_0000_0000;

/// Largest mass a design may declare, in fixed-point kilograms.
pub const MASS_LIMIT: i64 = 0x100_0000_0000;

/// One lift-producing surface group: its physical size, its lift and drag
/// coefficient curves as control points of `(coefficient, angle)` with
/// angles in fixed-point degrees, its neutral mounting angle, and the
/// largest deflection its control segment accepts, both in fixed-point
/// radians.
#[derive(Clone, Debug)]
pub struct WingSpec {
    pub size: Vec3,
    pub lift_coefficient_curve: Vec<(i64, i64)>,
    pub drag_coefficient_curve: Vec<(i64, i64)>,
    pub angle: i64,
    pub max_control_angle: i64,
}

impl WingSpec {
    /// Dimensions, curves and angles within the model's accepted ranges,
    /// with a planform area the force composer can take.
    pub open spec fn wf(self) -> bool {
        &&& in_range(self.size, SIZE_LIMIT as int)
        &&& 0 <= self.size.x && 0 <= self.size.y && 0 <= self.size.z
        &&& 0 <= fmul(self.size.x as int, self.size.z as int) <= AREA_LIMIT as int
        &&& points_in_limits(self.lift_coefficient_curve@)
        &&& points_in_limits(self.drag_coefficient_curve@)
        &&& abs_i(self.angle as int) <= MODIFIER_LIMIT as int
        &&& 0 <= self.max_control_angle <= MODIFIER_LIMIT
    }

    /// The lift coefficient table sampled from this group's curve.
    pub fn lift_coefficient_samples(&self) -> (r: Result<CoefficientTable, CurveError>)
        requires
            points_in_limits(self.lift_coefficient_curve@),
        ensures
            r is Ok <==> crate::curve::curve_valid(self.lift_coefficient_curve@),
            match r {
                Ok(t) => crate::curve::table_matches(t, self.lift_coefficient_curve@),
                Err(e) => e == crate::curve::curve_error(self.lift_coefficient_curve@),
            },
    {
        crate::curve::build_table(&self.lift_coefficient_curve)
    }

    /// The drag coefficient table sampled from this group's curve.
    pub fn drag_coefficient_samples(&self) -> (r: Result<CoefficientTable, CurveError>)
        requires
            points_in_limits(self.drag_coefficient_curve@),
        ensures
            r is Ok <==> crate::curve::curve_valid(self.drag_coefficient_curve@),
            match r {
                Ok(t) => crate::curve::table_matches(t, self.drag_coefficient_curve@),
                Err(e) => e == crate::curve::curve_error(self.drag_coefficient_curve@),
            },
    {
        crate::curve::build_table(&self.drag_coefficient_curve)
    }
}

/// The fuselage: a box of the given extents with its mass and wheel
/// placement, all in fixed-point units.
#[derive(Clone, Debug)]
pub struct FuselageSpec {
    pub size: Vec3,
    pub mass: i64,
    pub wheel_x_offset: i64,
    pub wheel_y_offset: i64,
    pub wheel_radius: i64,
}

impl FuselageSpec {
    pub open spec fn wf(self) -> bool {
        &&& in_range(self.size, SIZE_LIMIT as int)
        &&& 0 <= self.size.x && 0 <= self.size.y && 0 <= self.size.z
        &&& 0 <= self.mass <= MASS_LIMIT
        &&& abs_i(self.wheel_x_offset as int) <= SIZE_LIMIT as int
        &&& abs_i(self.wheel_y_offset as int) <= SIZE_LIMIT as int
        &&& 0 <= self.wheel_radius <= SIZE_LIMIT
    }
}

/// The tail assembly: its boom extents and the vertical and horizontal
/// tail surface groups.
#[derive(Clone, Debug)]
pub struct TailSpec {
    pub size: Vec3,
    pub vertical: WingSpec,
    pub horizontal: WingSpec,
}

impl TailSpec {
    pub open spec fn wf(self) -> bool {
        &&& in_range(self.size, SIZE_LIMIT as int)
        &&& 0 <= self.size.x && 0 <= self.size.y && 0 <= self.size.z
        &&& self.vertical.wf()
        &&& self.horizontal.wf()
    }
}

/// A whole aircraft design: name, engine thrust limit, fuselage, main
/// wings, and tail.
#[derive(Clone, Debug)]
pub struct PlaneSpec {
    pub name: String,
    pub thrust: i64,
    pub fuselage: FuselageSpec,
    pub wings: WingSpec,
    pub tail: TailSpec,
}

impl PlaneSpec {
    pub open spec fn wf(self) -> bool {
        &&& 0 <= self.thrust <= THRUST_LIMIT
        &&& self.fuselage.wf()
        &&& self.wings.wf()
        &&& self.tail.wf()
    }
}

/// The default main-wing lift curve: flat to five degrees below neutral,
/// rising through a stall peak at ten degrees, falling back to nothing at
/// a quarter turn.
pub open spec fn default_wing_lift_curve() -> Seq<(i64, i64)> {
    seq![
        (0i64, -90_000_000i64),
        (0i64, -5_000_000i64),
        (350_000i64, 0i64),
        (1_400_000i64, 10_000_000i64),
        (800_000i64, 15_000_000i64),
        (0i64, 90_000_000i64),
    ]
}

/// The default drag curve: a constant parasitic coefficient across the
/// whole domain.
pub open spec fn default_drag_curve() -> Seq<(i64, i64)> {
    seq![(32_000i64, -90_000_000i64), (32_000i64, 90_000_000i64)]
}

/// The default vertical-tail lift curve: antisymmetric, flat around
/// neutral.
pub open spec fn default_vertical_tail_curve() -> Seq<(i64, i64)> {
    seq![
        (0i64, -90_000_000i64),
        (-100_000i64, -10_000_000i64),
        (0i64, -2_500_000i64),
        (0i64, 0i64),
        (0i64, 2_500_000i64),
        (100_000i64, 10_000_000i64),
        (0i64, 90_000_000i64),
    ]
}

/// The default horizontal-tail lift curve: antisymmetric through neutral.
pub open spec fn default_horizontal_tail_curve() -> Seq<(i64, i64)> {
    seq![
        (0i64, -90_000_000i64),
        (-150_000i64, -10_000_000i64),
        (0i64, 0i64),
        (150_000i64, 10_000_000i64),
        (0i64, 90_000_000i64),
    ]
}

/// The generic wing lift curve used where a group gives none of its own.
pub open spec fn default_generic_lift_curve() -> Seq<(i64, i64)> {
    seq![
        (0i64, -90_000_000i64),
        (-150_000i64, -10_000_000i64),
        (150_000i64, 10_000_000i64),
        (0i64, 90_000_000i64),
    ]
}

fn push4(a: (i64, i64), b: (i64, i64), c: (i64, i64), d: (i64, i64)) -> (r: Vec<(i64, i64)>)
    ensures
        r@ == seq![a, b, c, d],
{
    let mut v: Vec<(i64, i64)> = Vec::new();
    v.push(a);
    v.push(b);
    v.push(c);
    v.push(d);
    proof {
        assert(v@ =~= seq![a, b, c, d]);
    }
    v
}

fn push_pair(a: (i64, i64), b: (i64, i64)) -> (r: Vec<(i64, i64)>)
    ensures
        r@ == seq![a, b],
{
    let mut v: Vec<(i64, i64)> = Vec::new();
    v.push(a);
    v.push(b);
    proof {
        assert(v@ =~= seq![a, b]);
    }
    v
}

impl Default for WingSpec {
    /// A small generic surface: two metres of span, a gentle antisymmetric
    /// lift curve, constant drag, one degree of control throw.
    fn default() -> (r: Self)
        ensures
            r.size == (Vec3 { x: 2_000_000, y: 200_000, z: 1_000_000 }),
            r.lift_coefficient_curve@ == default_generic_lift_curve(),
            r.drag_coefficient_curve@ == default_drag_curve(),
            r.angle == 0,
            r.max_control_angle == 17_453,
            r.wf(),
    {
        let lift = push4(
            (0, -90_000_000),
            (-150_000, -10_000_000),
            (150_000, 10_000_000),
            (0, 90_000_000),
        );
        let drag = push_pair((32_000, -90_000_000), (32_000, 90_000_000));
        let r = WingSpec {
            size: Vec3 { x: 2_000_000, y: 200_000, z: 1_000_000 },
            lift_coefficient_curve: lift,
            drag_coefficient_curve: drag,
            angle: 0,
            max_control_angle: 17_453,
        };
        proof {
            assert(fmul(2_000_000, 1_000_000) == 2_000_000) by (nonlinear_arith);
        }
        r
    }
}

impl Default for PlaneSpec {
    /// The reference aircraft: five hundred newtons of thrust, a five and
    /// a third metre fuselage, five and a half metres of wing span with a
    /// stall peak at ten degrees, and a conventional tail.
    fn default() -> (r: Self)
        ensures
            r.thrust == 500_000_000,
            r.fuselage.size == (Vec3 { x: 1_120_000, y: 2_000_000, z: 5_300_000 }),
            r.fuselage.mass == 100_000_000,
            r.fuselage.wheel_y_offset == 500_000,
            r.fuselage.wheel_x_offset == 700_000,
            r.fuselage.wheel_radius == 200_000,
            r.wings.size == (Vec3 { x: 5_500_000, y: 200_000, z: 1_500_000 }),
            r.wings.lift_coefficient_curve@ == default_wing_lift_curve(),
            r.wings.drag_coefficient_curve@ == default_drag_curve(),
            r.wings.angle == 0,
            r.wings.max_control_angle == 43_633,
            r.tail.size == (Vec3 { x: 250_000, y: 250_000, z: 3_000_000 }),
            r.tail.vertical.size == (Vec3 { x: 100_000, y: 2_000_000, z: 500_000 }),
            r.tail.vertical.lift_coefficient_curve@ == default_vertical_tail_curve(),
            r.tail.vertical.drag_coefficient_curve@ == default_drag_curve(),
            r.tail.vertical.max_control_angle == 87_266,
            r.tail.horizontal.size == (Vec3 { x: 2_000_000, y: 200_000, z: 1_000_000 }),
            r.tail.horizontal.lift_coefficient_curve@ == default_horizontal_tail_curve(),
            r.tail.horizontal.drag_coefficient_curve@ == default_drag_curve(),
            r.tail.horizontal.angle == 4_363,
            r.tail.horizontal.max_control_angle == 87_266,
            r.wf(),
    {
        let mut wing_lift: Vec<(i64, i64)> = Vec::new();
        wing_lift.push((0, -90_000_000));
        wing_lift.push((0, -5_000_000));
        wing_lift.push((350_000, 0));
        wing_lift.push((1_400_000, 10_000_000));
        wing_lift.push((800_000, 15_000_000));
        wing_lift.push((0, 90_000_000));
        proof {
            assert(wing_lift@ =~= default_wing_lift_curve());
        }
        let mut vertical_lift: Vec<(i64, i64)> = Vec::new();
        vertical_lift.push((0, -90_000_000));
        vertical_lift.push((-100_000, -10_000_000));
        vertical_lift.push((0, -2_500_000));
        vertical_lift.push((0, 0));
        vertical_lift.push((0, 2_500_000));
        vertical_lift.push((100_000, 10_000_000));
        vertical_lift.push((0, 90_000_000));
        proof {
            assert(vertical_lift@ =~= default_vertical_tail_curve());
        }
        let mut horizontal_lift: Vec<(i64, i64)> = Vec::new();
        horizontal_lift.push((0, -90_000_000));
        horizontal_lift.push((-150_000, -10_000_000));
        horizontal_lift.push((0, 0));
        horizontal_lift.push((150_000, 10_000_000));
        horizontal_lift.push((0, 90_000_000));
        proof {
            assert(horizontal_lift@ =~= default_horizontal_tail_curve());
        }
        let r = PlaneSpec {
            name: "Default".to_string(),
            thrust: 500_000_000,
            fuselage: FuselageSpec {
                size: Vec3 { x: 1_120_000, y: 2_000_000, z: 5_300_000 },
                mass: 100_000_000,
                wheel_y_offset: 500_000,
                wheel_x_offset: 700_000,
                wheel_radius: 200_000,
            },
            wings: WingSpec {
                size: Vec3 { x: 5_500_000, y: 200_000, z: 1_500_000 },
                lift_coefficient_curve: wing_lift,
                drag_coefficient_curve: push_pair((32_000, -90_000_000), (32_000, 90_000_000)),
                angle: 0,
                max_control_angle: 43_633,
            },
            tail: TailSpec {
                size: Vec3 { x: 250_000, y: 250_000, z: 3_000_000 },
                vertical: WingSpec {
                    size: Vec3 { x: 100_000, y: 2_000_000, z: 500_000 },
                    lift_coefficient_curve: vertical_lift,
                    drag_coefficient_curve: push_pair((32_000, -90_000_000), (32_000, 90_000_000)),
                    angle: 0,
                    max_control_angle: 87_266,
                },
                horizontal: WingSpec {
                    size: Vec3 { x: 2_000_000, y: 200_000, z: 1_000_000 },
                    lift_coefficient_curve: horizontal_lift,
                    drag_coefficient_curve: push_pair((32_000, -90_000_000), (32_000, 90_000_000)),
                    angle: 4_363,
                    max_control_angle: 87_266,
                },
            },
        };
        proof {
            assert(fmul(5_500_000, 1_500_000) == 8_250_000) by (nonlinear_arith);
            assert(fmul(100_000, 500_000) == 50_000) by (nonlinear_arith);
            assert(fmul(2_000_000, 1_000_000) == 2_000_000) by (nonlinear_arith);
        }
        r
    }
}

} // verus!
