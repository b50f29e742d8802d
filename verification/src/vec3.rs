//! Fixed-point three-component vectors and rigid poses.
//!
//! `Vec3` carries fixed-point components (millionths of a unit).  `WideVec3`
//! carries 128-bit components at raw product scale: a cross product of two
//! fixed-point vectors is kept undivided there, so torque composition is
//! exactly bilinear.  A `Pose` is a world placement: a translation and the
//! three axis vectors of the body frame.

use vstd::prelude::*;

use crate::fixed::{abs_i, fmul, is_sqrt, sqrt_i, tdiv, SCALE};
use crate::fixed::{fx_mul, lemma_sqrt_unique, sqrt_u128};

verus! {

/// A vector of three fixed-point quantities.
#[derive(Clone, Copy, PartialEq, Eq, Structural, Debug)]
pub struct Vec3 {
    pub x: i64,
    pub y: i64,
    pub z: i64,
}

/// A vector of three raw-scale (`SCALE` squared) quantities, wide enough to
/// hold the exact cross product of any two `Vec3` values in range.
#[derive(Clone, Copy, PartialEq, Eq, Structural, Debug)]
pub struct WideVec3 {
    pub x: i128,
    pub y: i128,
    pub z: i128,
}

/// Every component has magnitude at most `m`.
pub open spec fn in_range(v: Vec3, m: int) -> bool {
    abs_i(v.x as int) <= m && abs_i(v.y as int) <= m && abs_i(v.z as int) <= m
}

/// Fixed-point dot product.
pub open spec fn dot_s(a: Vec3, b: Vec3) -> int {
    fmul(a.x as int, b.x as int) + fmul(a.y as int, b.y as int) + fmul(a.z as int, b.z as int)
}

/// Sum of squared components, at raw scale.
pub open spec fn norm2_raw(v: Vec3) -> int {
    (v.x as int) * (v.x as int) + (v.y as int) * (v.y as int) + (v.z as int) * (v.z as int)
}

/// Length of a vector, in fixed-point steps.
pub open spec fn norm_fx(v: Vec3) -> int {
    sqrt_i(norm2_raw(v))
}

pub open spec fn cross_x(a: Vec3, b: Vec3) -> int {
    (a.y as int) * (b.z as int) - (a.z as int) * (b.y as int)
}

pub open spec fn cross_y(a: Vec3, b: Vec3) -> int {
    (a.z as int) * (b.x as int) - (a.x as int) * (b.z as int)
}

pub open spec fn cross_z(a: Vec3, b: Vec3) -> int {
    (a.x as int) * (b.y as int) - (a.y as int) * (b.x as int)
}

/// One component of a vector divided by the vector's length, in fixed-point
/// steps; zero for the zero vector.
pub open spec fn unit_comp(c: int, n: int) -> int {
    if n == 0 {
        0
    } else {
        tdiv(c * (SCALE as int), n)
    }
}

impl Vec3 {
    pub open spec fn is_zero(self) -> bool {
        self.x == 0 && self.y == 0 && self.z == 0
    }

    pub fn zero() -> (r: Vec3)
        ensures
            r.is_zero(),
    {
        Vec3 { x: 0, y: 0, z: 0 }
    }

    pub fn plus(self, o: Vec3) -> (r: Vec3)
        requires
            i64::MIN <= self.x + o.x <= i64::MAX,
            i64::MIN <= self.y + o.y <= i64::MAX,
            i64::MIN <= self.z + o.z <= i64::MAX,
        ensures
            r.x == self.x + o.x,
            r.y == self.y + o.y,
            r.z == self.z + o.z,
    {
        Vec3 { x: self.x + o.x, y: self.y + o.y, z: self.z + o.z }
    }

    pub fn minus(self, o: Vec3) -> (r: Vec3)
        requires
            i64::MIN <= self.x - o.x <= i64::MAX,
            i64::MIN <= self.y - o.y <= i64::MAX,
            i64::MIN <= self.z - o.z <= i64::MAX,
        ensures
            r.x == self.x - o.x,
            r.y == self.y - o.y,
            r.z == self.z - o.z,
    {
        Vec3 { x: self.x - o.x, y: self.y - o.y, z: self.z - o.z }
    }

    pub fn neg(self) -> (r: Vec3)
        requires
            self.x > i64::MIN,
            self.y > i64::MIN,
            self.z > i64::MIN,
        ensures
            r.x == -self.x,
            r.y == -self.y,
            r.z == -self.z,
    {
        Vec3 { x: -self.x, y: -self.y, z: -self.z }
    }

    /// Each component scaled by the fixed-point factor `k`.
    pub fn scaled(self, k: i64) -> (r: Vec3)
        requires
            i64::MIN <= fmul(self.x as int, k as int) <= i64::MAX,
            i64::MIN <= fmul(self.y as int, k as int) <= i64::MAX,
            i64::MIN <= fmul(self.z as int, k as int) <= i64::MAX,
        ensures
            r.x == fmul(self.x as int, k as int),
            r.y == fmul(self.y as int, k as int),
            r.z == fmul(self.z as int, k as int),
    {
        Vec3 { x: fx_mul(self.x, k), y: fx_mul(self.y, k), z: fx_mul(self.z, k) }
    }

    pub fn dot(self, o: Vec3) -> (r: i64)
        requires
            abs_i(fmul(self.x as int, o.x as int)) + abs_i(fmul(self.y as int, o.y as int)) + abs_i(
                fmul(self.z as int, o.z as int),
            ) <= i64::MAX,
        ensures
            r as int == dot_s(self, o),
    {
        fx_mul(self.x, o.x) + fx_mul(self.y, o.y) + fx_mul(self.z, o.z)
    }

    /// The exact cross product, at raw scale.
    pub fn cross_raw(self, o: Vec3) -> (r: WideVec3)
        requires
            in_range(self, 0x4000_0000_0000_0000),
            in_range(o, 0x4000_0000_0000_0000),
        ensures
            r.x == cross_x(self, o),
            r.y == cross_y(self, o),
            r.z == cross_z(self, o),
    {
        WideVec3 {
            x: cross_term(self.y, o.z, self.z, o.y),
            y: cross_term(self.z, o.x, self.x, o.z),
            z: cross_term(self.x, o.y, self.y, o.x),
        }
    }

    /// Length of the vector, in fixed-point steps.
    pub fn norm(self) -> (r: i64)
        requires
            in_range(self, 0x4000_0000_0000_0000),
        ensures
            r as int == norm_fx(self),
            0 <= r,
    {
        let mx: u128 = if self.x < 0 {
            (-(self.x as i128)) as u128
        } else {
            self.x as u128
        };
        let my: u128 = if self.y < 0 {
            (-(self.y as i128)) as u128
        } else {
            self.y as u128
        };
        let mz: u128 = if self.z < 0 {
            (-(self.z as i128)) as u128
        } else {
            self.z as u128
        };
        assert(mx * mx == (self.x as int) * (self.x as int) && my * my == (self.y as int) * (
        self.y as int) && mz * mz == (self.z as int) * (self.z as int)) by (nonlinear_arith)
            requires
                mx == abs_i(self.x as int),
                my == abs_i(self.y as int),
                mz == abs_i(self.z as int),
        ;
        assert(mx * mx + my * my + mz * mz <= u128::MAX) by (nonlinear_arith)
            requires
                mx <= 0x4000_0000_0000_0000u128,
                my <= 0x4000_0000_0000_0000u128,
                mz <= 0x4000_0000_0000_0000u128,
        ;
        let n2 = mx * mx + my * my + mz * mz;
        assert(n2 <= 3 * 0x4000_0000_0000_0000 * 0x4000_0000_0000_0000int) by (nonlinear_arith)
            requires
                n2 == mx * mx + my * my + mz * mz,
                mx <= 0x4000_0000_0000_0000u128,
                my <= 0x4000_0000_0000_0000u128,
                mz <= 0x4000_0000_0000_0000u128,
        ;
        let s = sqrt_u128(n2);
        assert(s < 0x8000_0000_0000_0000u64) by (nonlinear_arith)
            requires
                (s as int) * (s as int) <= n2 as int,
                n2 <= 3 * 0x4000_0000_0000_0000 * 0x4000_0000_0000_0000int,
        ;
        proof {
            lemma_sqrt_unique(n2 as int, s as int);
        }
        s as i64
    }

    /// The vector scaled to unit length, or the zero vector for zero input:
    /// normalization is protected, never undefined.
    pub fn normalize_or_zero(self) -> (r: Vec3)
        requires
            in_range(self, 0x4000_0000_0000_0000),
        ensures
            r.x == unit_comp(self.x as int, norm_fx(self)),
            r.y == unit_comp(self.y as int, norm_fx(self)),
            r.z == unit_comp(self.z as int, norm_fx(self)),
            in_range(r, SCALE as int),
            self.is_zero() ==> r.is_zero(),
    {
        let n = self.norm();
        if n == 0 {
            proof {
                lemma_comp_le_norm(self);
            }
            Vec3 { x: 0, y: 0, z: 0 }
        } else {
            proof {
                lemma_comp_le_norm(self);
            }
            Vec3 {
                x: div_scaled(self.x, n),
                y: div_scaled(self.y, n),
                z: div_scaled(self.z, n),
            }
        }
    }
}

/// `c * SCALE / n`, truncated toward zero, for `|c| <= n`.
fn div_scaled(c: i64, n: i64) -> (r: i64)
    requires
        0 < n,
        abs_i(c as int) <= n,
    ensures
        r as int == tdiv(c * (SCALE as int), n as int),
        abs_i(r as int) <= SCALE as int,
{
    let m: u128 = if c < 0 {
        (-(c as i128)) as u128
    } else {
        c as u128
    };
    assert(m * (SCALE as u128) <= u128::MAX) by (nonlinear_arith)
        requires
            m <= 0x8000_0000_0000_0000u128,
            SCALE as u128 == 1_000_000u128,
    ;
    let q = m * (SCALE as u128) / (n as u128);
    assert(q <= SCALE as u128) by (nonlinear_arith)
        requires
            q as int == (m as int) * (SCALE as int) / (n as int),
            m as int <= n as int,
            0 < n as int,
    ;
    assert(c * (SCALE as int) == if c < 0 {
        -((m * (SCALE as int)) as int)
    } else {
        (m * (SCALE as int)) as int
    }) by (nonlinear_arith)
        requires
            m == abs_i(c as int),
    ;
    if c < 0 {
        -(q as i64)
    } else {
        q as i64
    }
}

/// The componentwise negation of a vector.
pub open spec fn neg_v(v: Vec3) -> Vec3 {
    Vec3 { x: (-v.x) as i64, y: (-v.y) as i64, z: (-v.z) as i64 }
}

/// A nonzero vector has a positive length.
pub proof fn lemma_norm_pos(v: Vec3)
    requires
        norm2_raw(v) > 0,
    ensures
        norm_fx(v) >= 1,
{
    crate::fixed::lemma_sqrt_exists(norm2_raw(v));
    let n = norm_fx(v);
    if n == 0 {
        assert(norm2_raw(v) < 1) by (nonlinear_arith)
            requires
                is_sqrt(norm2_raw(v), 0),
        ;
    }
}

/// Negating a vector preserves its squared length.
pub proof fn lemma_norm2_neg(v: Vec3)
    requires
        v.x > i64::MIN,
        v.y > i64::MIN,
        v.z > i64::MIN,
    ensures
        norm2_raw(neg_v(v)) == norm2_raw(v),
{
    assert((-(v.x as int)) * (-(v.x as int)) == (v.x as int) * (v.x as int) && (-(v.y as int)) * (-(
    v.y as int)) == (v.y as int) * (v.y as int) && (-(v.z as int)) * (-(v.z as int)) == (
    v.z as int) * (v.z as int)) by (nonlinear_arith);
}

/// The length of a vector whose components are bounded by `k` lies between
/// zero and `2 * k`, and squares to at most the sum of squares.
pub proof fn lemma_norm_bound(v: Vec3, k: int)
    requires
        in_range(v, k),
        0 <= k,
    ensures
        0 <= norm_fx(v) <= 2 * k,
        is_sqrt(norm2_raw(v), norm_fx(v)),
        v.is_zero() <==> norm_fx(v) == 0,
{
    assert(0 <= norm2_raw(v) <= 3 * k * k) by (nonlinear_arith)
        requires
            abs_i(v.x as int) <= k,
            abs_i(v.y as int) <= k,
            abs_i(v.z as int) <= k,
    ;
    crate::fixed::lemma_sqrt_exists(norm2_raw(v));
    let n = norm_fx(v);
    assert(n <= 2 * k) by (nonlinear_arith)
        requires
            is_sqrt(norm2_raw(v), n),
            norm2_raw(v) <= 3 * k * k,
            0 <= k,
    ;
    if v.is_zero() {
        assert(norm2_raw(v) == 0) by (nonlinear_arith)
            requires
                v.x == 0,
                v.y == 0,
                v.z == 0,
        ;
        crate::fixed::lemma_sqrt_unique(0, 0);
    }
    if n == 0 {
        assert(norm2_raw(v) < 1) by (nonlinear_arith)
            requires
                is_sqrt(norm2_raw(v), 0),
        ;
        assert((v.x as int) * (v.x as int) >= 0 && (v.y as int) * (v.y as int) >= 0 && (
        v.z as int) * (v.z as int) >= 0) by (nonlinear_arith);
        assert((v.x as int) * (v.x as int) == 0 ==> v.x == 0) by (nonlinear_arith);
        assert((v.y as int) * (v.y as int) == 0 ==> v.y == 0) by (nonlinear_arith);
        assert((v.z as int) * (v.z as int) == 0 ==> v.z == 0) by (nonlinear_arith);
    }
}

/// Components of a vector never exceed its length.
pub proof fn lemma_comp_le_norm(v: Vec3)
    ensures
        abs_i(v.x as int) <= norm_fx(v),
        abs_i(v.y as int) <= norm_fx(v),
        abs_i(v.z as int) <= norm_fx(v),
        v.is_zero() ==> norm_fx(v) == 0,
{
    let n2 = norm2_raw(v);
    assert((v.x as int) * (v.x as int) >= 0 && (v.y as int) * (v.y as int) >= 0 && (v.z as int)
        * (v.z as int) >= 0) by (nonlinear_arith);
    crate::fixed::lemma_sqrt_exists(n2);
    let n = norm_fx(v);
    assert(abs_i(v.x as int) <= n && abs_i(v.y as int) <= n && abs_i(v.z as int) <= n)
        by (nonlinear_arith)
        requires
            is_sqrt(norm2_raw(v), n),
            n2 == norm2_raw(v),
    ;
    if v.is_zero() {
        lemma_sqrt_unique(0, 0);
    }
}

/// One component of a cross product: `p * q - r * s`, exactly.
fn cross_term(p: i64, q: i64, r: i64, s: i64) -> (o: i128)
    requires
        abs_i(p as int) <= 0x4000_0000_0000_0000,
        abs_i(q as int) <= 0x4000_0000_0000_0000,
        abs_i(r as int) <= 0x4000_0000_0000_0000,
        abs_i(s as int) <= 0x4000_0000_0000_0000,
    ensures
        o == (p as int) * (q as int) - (r as int) * (s as int),
{
    assert(abs_i((p as int) * (q as int)) <= 0x4000_0000_0000_0000 * 0x4000_0000_0000_0000int
        && abs_i((r as int) * (s as int)) <= 0x4000_0000_0000_0000 * 0x4000_0000_0000_0000int)
        by (nonlinear_arith)
        requires
            abs_i(p as int) <= 0x4000_0000_0000_0000,
            abs_i(q as int) <= 0x4000_0000_0000_0000,
            abs_i(r as int) <= 0x4000_0000_0000_0000,
            abs_i(s as int) <= 0x4000_0000_0000_0000,
    ;
    (p as i128) * (q as i128) - (r as i128) * (s as i128)
}

impl WideVec3 {
    pub open spec fn is_zero(self) -> bool {
        self.x == 0 && self.y == 0 && self.z == 0
    }

    pub fn zero() -> (r: WideVec3)
        ensures
            r.is_zero(),
    {
        WideVec3 { x: 0, y: 0, z: 0 }
    }

    pub fn plus(self, o: WideVec3) -> (r: WideVec3)
        requires
            i128::MIN <= self.x + o.x <= i128::MAX,
            i128::MIN <= self.y + o.y <= i128::MAX,
            i128::MIN <= self.z + o.z <= i128::MAX,
        ensures
            r.x == self.x + o.x,
            r.y == self.y + o.y,
            r.z == self.z + o.z,
    {
        WideVec3 { x: self.x + o.x, y: self.y + o.y, z: self.z + o.z }
    }

    /// The value scaled back down to fixed-point steps, each component
    /// truncated toward zero.
    pub fn to_fixed(self) -> (r: Vec3)
        requires
            i64::MIN <= tdiv(self.x as int, SCALE as int) <= i64::MAX,
            i64::MIN <= tdiv(self.y as int, SCALE as int) <= i64::MAX,
            i64::MIN <= tdiv(self.z as int, SCALE as int) <= i64::MAX,
        ensures
            r.x == tdiv(self.x as int, SCALE as int),
            r.y == tdiv(self.y as int, SCALE as int),
            r.z == tdiv(self.z as int, SCALE as int),
    {
        Vec3 {
            x: wide_div_scale(self.x),
            y: wide_div_scale(self.y),
            z: wide_div_scale(self.z),
        }
    }
}

fn wide_div_scale(a: i128) -> (r: i64)
    requires
        i64::MIN <= tdiv(a as int, SCALE as int) <= i64::MAX,
    ensures
        r as int == tdiv(a as int, SCALE as int),
{
    if a < 0 {
        let m: u128 = if a == i128::MIN {
            0x8000_0000_0000_0000_0000_0000_0000_0000u128
        } else {
            (-a) as u128
        };
        assert(m == -(a as int));
        let q = m / (SCALE as u128);
        let v: i128 = -(q as i128);
        v as i64
    } else {
        let q = (a as u128) / (SCALE as u128);
        q as i64
    }
}

/// A rigid placement in the world: a translation and the three axis vectors
/// of the body frame.  The forward direction of a body is the negated z
/// axis, as the rest of the model expects.
#[derive(Clone, Copy, PartialEq, Eq, Structural, Debug)]
pub struct Pose {
    pub translation: Vec3,
    pub x_axis: Vec3,
    pub y_axis: Vec3,
    pub z_axis: Vec3,
}

/// Component `x` of a direction vector rotated into the world frame.
pub open spec fn rot_x(p: Pose, v: Vec3) -> int {
    fmul(v.x as int, p.x_axis.x as int) + fmul(v.y as int, p.y_axis.x as int) + fmul(
        v.z as int,
        p.z_axis.x as int,
    )
}

pub open spec fn rot_y(p: Pose, v: Vec3) -> int {
    fmul(v.x as int, p.x_axis.y as int) + fmul(v.y as int, p.y_axis.y as int) + fmul(
        v.z as int,
        p.z_axis.y as int,
    )
}

/// The rotated components can be computed term by term in 64 bits: for each
/// world component, the magnitudes of the three product terms sum within the
/// integer range.
pub open spec fn rot_fits(p: Pose, v: Vec3) -> bool {
    &&& abs_i(fmul(v.x as int, p.x_axis.x as int)) + abs_i(fmul(v.y as int, p.y_axis.x as int))
        + abs_i(fmul(v.z as int, p.z_axis.x as int)) <= i64::MAX
    &&& abs_i(fmul(v.x as int, p.x_axis.y as int)) + abs_i(fmul(v.y as int, p.y_axis.y as int))
        + abs_i(fmul(v.z as int, p.z_axis.y as int)) <= i64::MAX
    &&& abs_i(fmul(v.x as int, p.x_axis.z as int)) + abs_i(fmul(v.y as int, p.y_axis.z as int))
        + abs_i(fmul(v.z as int, p.z_axis.z as int)) <= i64::MAX
}

pub open spec fn rot_z(p: Pose, v: Vec3) -> int {
    fmul(v.x as int, p.x_axis.z as int) + fmul(v.y as int, p.y_axis.z as int) + fmul(
        v.z as int,
        p.z_axis.z as int,
    )
}

/// Largest magnitude of an axis-vector component: a tenth over one unit,
/// room enough for any normalized rotation frame.
pub const AXIS_LIMIT: i64 = 1_100_000;

/// Largest magnitude of a world-position component, in fixed-point metres.
pub const POS_LIMIT: i64 = 0x100_0000_0000;

impl Pose {
    /// All three axis vectors have components within `m`.
    pub open spec fn axes_in_range(self, m: int) -> bool {
        in_range(self.x_axis, m) && in_range(self.y_axis, m) && in_range(self.z_axis, m)
    }

    /// A usable placement: near-unit nonzero axes and a bounded
    /// translation.
    pub open spec fn wf(self) -> bool {
        &&& self.axes_in_range(AXIS_LIMIT as int)
        &&& in_range(self.translation, POS_LIMIT as int)
        &&& norm2_raw(self.x_axis) > 0
        &&& norm2_raw(self.y_axis) > 0
        &&& norm2_raw(self.z_axis) > 0
    }

    pub fn right(self) -> (r: Vec3)
        ensures
            r == self.x_axis,
    {
        self.x_axis
    }

    pub fn up(self) -> (r: Vec3)
        ensures
            r == self.y_axis,
    {
        self.y_axis
    }

    pub fn back(self) -> (r: Vec3)
        ensures
            r == self.z_axis,
    {
        self.z_axis
    }

    /// The nose direction: the negated z axis.
    pub fn forward(self) -> (r: Vec3)
        requires
            self.z_axis.x > i64::MIN,
            self.z_axis.y > i64::MIN,
            self.z_axis.z > i64::MIN,
        ensures
            r.x == -self.z_axis.x,
            r.y == -self.z_axis.y,
            r.z == -self.z_axis.z,
    {
        self.z_axis.neg()
    }

    /// A local direction carried into the world frame.
    pub fn rotate(self, v: Vec3) -> (r: Vec3)
        requires
            rot_fits(self, v),
        ensures
            r.x == rot_x(self, v),
            r.y == rot_y(self, v),
            r.z == rot_z(self, v),
    {
        Vec3 {
            x: fx_mul(v.x, self.x_axis.x) + fx_mul(v.y, self.y_axis.x) + fx_mul(v.z, self.z_axis.x),
            y: fx_mul(v.x, self.x_axis.y) + fx_mul(v.y, self.y_axis.y) + fx_mul(v.z, self.z_axis.y),
            z: fx_mul(v.x, self.x_axis.z) + fx_mul(v.y, self.y_axis.z) + fx_mul(v.z, self.z_axis.z),
        }
    }

    /// A local point carried into the world frame.
    pub fn transform_point(self, v: Vec3) -> (r: Vec3)
        requires
            rot_fits(self, v),
            i64::MIN <= self.translation.x + rot_x(self, v) <= i64::MAX,
            i64::MIN <= self.translation.y + rot_y(self, v) <= i64::MAX,
            i64::MIN <= self.translation.z + rot_z(self, v) <= i64::MAX,
        ensures
            r.x == self.translation.x + rot_x(self, v),
            r.y == self.translation.y + rot_y(self, v),
            r.z == self.translation.z + rot_z(self, v),
    {
        let d = self.rotate(v);
        self.translation.plus(d)
    }
}

} // verus!
