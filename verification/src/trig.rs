//! Whole-degree trigonometry on fixed-point values.
//!
//! The model needs angles only at whole-degree resolution: coefficient
//! tables are indexed by integer degrees of angle of attack.  `cos_fx`
//! tabulates the cosine at whole degrees in millionths; `acos_deg` inverts
//! it by scanning for the first tabulated value not above a given cosine,
//! which is exactly what its specification says and all a caller relies on.

use vstd::prelude::*;

use crate::fixed::{abs_i, clip, tdiv, tdiv_i128, SCALE};
use crate::fixed::lemma_sqrt_exists;
use crate::vec3::{in_range, norm_fx, Vec3};

verus! {

/// Cosine of `d` whole degrees for `0 <= d <= 90`, in millionths, rounded
/// to the nearest step.  Clamped to the boundary values outside that range.
pub open spec fn cos_fx_quarter(d: int) -> int {
    if d <= 0 {
        1000000
    } else if d == 1 {
        999848
    } else if d == 2 {
        999391
    } else if d == 3 {
        998630
    } else if d == 4 {
        997564
    } else if d == 5 {
        996195
    } else if d == 6 {
        994522
    } else if d == 7 {
        992546
    } else if d == 8 {
        990268
    } else if d == 9 {
        987688
    } else if d == 10 {
        984808
    } else if d == 11 {
        981627
    } else if d == 12 {
        978148
    } else if d == 13 {
        974370
    } else if d == 14 {
        970296
    } else if d == 15 {
        965926
    } else if d == 16 {
        961262
    } else if d == 17 {
        956305
    } else if d == 18 {
        951057
    } else if d == 19 {
        945519
    } else if d == 20 {
        939693
    } else if d == 21 {
        933580
    } else if d == 22 {
        927184
    } else if d == 23 {
        920505
    } else if d == 24 {
        913545
    } else if d == 25 {
        906308
    } else if d == 26 {
        898794
    } else if d == 27 {
        891007
    } else if d == 28 {
        882948
    } else if d == 29 {
        874620
    } else if d == 30 {
        866025
    } else if d == 31 {
        857167
    } else if d == 32 {
        848048
    } else if d == 33 {
        838671
    } else if d == 34 {
        829038
    } else if d == 35 {
        819152
    } else if d == 36 {
        809017
    } else if d == 37 {
        798636
    } else if d == 38 {
        788011
    } else if d == 39 {
        777146
    } else if d == 40 {
        766044
    } else if d == 41 {
        754710
    } else if d == 42 {
        743145
    } else if d == 43 {
        731354
    } else if d == 44 {
        719340
    } else if d == 45 {
        707107
    } else if d == 46 {
        694658
    } else if d == 47 {
        681998
    } else if d == 48 {
        669131
    } else if d == 49 {
        656059
    } else if d == 50 {
        642788
    } else if d == 51 {
        629320
    } else if d == 52 {
        615661
    } else if d == 53 {
        601815
    } else if d == 54 {
        587785
    } else if d == 55 {
        573576
    } else if d == 56 {
        559193
    } else if d == 57 {
        544639
    } else if d == 58 {
        529919
    } else if d == 59 {
        515038
    } else if d == 60 {
        500000
    } else if d == 61 {
        484810
    } else if d == 62 {
        469472
    } else if d == 63 {
        453990
    } else if d == 64 {
        438371
    } else if d == 65 {
        422618
    } else if d == 66 {
        406737
    } else if d == 67 {
        390731
    } else if d == 68 {
        374607
    } else if d == 69 {
        358368
    } else if d == 70 {
        342020
    } else if d == 71 {
        325568
    } else if d == 72 {
        309017
    } else if d == 73 {
        292372
    } else if d == 74 {
        275637
    } else if d == 75 {
        258819
    } else if d == 76 {
        241922
    } else if d == 77 {
        224951
    } else if d == 78 {
        207912
    } else if d == 79 {
        190809
    } else if d == 80 {
        173648
    } else if d == 81 {
        156434
    } else if d == 82 {
        139173
    } else if d == 83 {
        121869
    } else if d == 84 {
        104528
    } else if d == 85 {
        87156
    } else if d == 86 {
        69756
    } else if d == 87 {
        52336
    } else if d == 88 {
        34899
    } else if d == 89 {
        17452
    } else if d == 90 {
        0
    } else {
        0
    }
}

/// Cosine of `d` whole degrees for `0 <= d <= 180`, in millionths, via the
/// symmetry of the cosine about a quarter turn.
pub open spec fn cos_fx(d: int) -> int {
    if d <= 90 {
        cos_fx_quarter(d)
    } else {
        -cos_fx_quarter(180 - d)
    }
}

fn cos_quarter(d: i64) -> (r: i64)
    ensures
        r as int == cos_fx_quarter(d as int),
{
    if d <= 0 {
        1000000
    } else if d == 1 {
        999848
    } else if d == 2 {
        999391
    } else if d == 3 {
        998630
    } else if d == 4 {
        997564
    } else if d == 5 {
        996195
    } else if d == 6 {
        994522
    } else if d == 7 {
        992546
    } else if d == 8 {
        990268
    } else if d == 9 {
        987688
    } else if d == 10 {
        984808
    } else if d == 11 {
        981627
    } else if d == 12 {
        978148
    } else if d == 13 {
        974370
    } else if d == 14 {
        970296
    } else if d == 15 {
        965926
    } else if d == 16 {
        961262
    } else if d == 17 {
        956305
    } else if d == 18 {
        951057
    } else if d == 19 {
        945519
    } else if d == 20 {
        939693
    } else if d == 21 {
        933580
    } else if d == 22 {
        927184
    } else if d == 23 {
        920505
    } else if d == 24 {
        913545
    } else if d == 25 {
        906308
    } else if d == 26 {
        898794
    } else if d == 27 {
        891007
    } else if d == 28 {
        882948
    } else if d == 29 {
        874620
    } else if d == 30 {
        866025
    } else if d == 31 {
        857167
    } else if d == 32 {
        848048
    } else if d == 33 {
        838671
    } else if d == 34 {
        829038
    } else if d == 35 {
        819152
    } else if d == 36 {
        809017
    } else if d == 37 {
        798636
    } else if d == 38 {
        788011
    } else if d == 39 {
        777146
    } else if d == 40 {
        766044
    } else if d == 41 {
        754710
    } else if d == 42 {
        743145
    } else if d == 43 {
        731354
    } else if d == 44 {
        719340
    } else if d == 45 {
        707107
    } else if d == 46 {
        694658
    } else if d == 47 {
        681998
    } else if d == 48 {
        669131
    } else if d == 49 {
        656059
    } else if d == 50 {
        642788
    } else if d == 51 {
        629320
    } else if d == 52 {
        615661
    } else if d == 53 {
        601815
    } else if d == 54 {
        587785
    } else if d == 55 {
        573576
    } else if d == 56 {
        559193
    } else if d == 57 {
        544639
    } else if d == 58 {
        529919
    } else if d == 59 {
        515038
    } else if d == 60 {
        500000
    } else if d == 61 {
        484810
    } else if d == 62 {
        469472
    } else if d == 63 {
        453990
    } else if d == 64 {
        438371
    } else if d == 65 {
        422618
    } else if d == 66 {
        406737
    } else if d == 67 {
        390731
    } else if d == 68 {
        374607
    } else if d == 69 {
        358368
    } else if d == 70 {
        342020
    } else if d == 71 {
        325568
    } else if d == 72 {
        309017
    } else if d == 73 {
        292372
    } else if d == 74 {
        275637
    } else if d == 75 {
        258819
    } else if d == 76 {
        241922
    } else if d == 77 {
        224951
    } else if d == 78 {
        207912
    } else if d == 79 {
        190809
    } else if d == 80 {
        173648
    } else if d == 81 {
        156434
    } else if d == 82 {
        139173
    } else if d == 83 {
        121869
    } else if d == 84 {
        104528
    } else if d == 85 {
        87156
    } else if d == 86 {
        69756
    } else if d == 87 {
        52336
    } else if d == 88 {
        34899
    } else if d == 89 {
        17452
    } else if d == 90 {
        0
    } else {
        0
    }
}

/// Cosine of `d` whole degrees, in millionths.
pub fn cos_deg(d: i64) -> (r: i64)
    requires
        0 <= d <= 180,
    ensures
        r as int == cos_fx(d as int),
{
    if d <= 90 {
        cos_quarter(d)
    } else {
        -cos_quarter(180 - d)
    }
}

/// The first whole degree at or after `d` whose tabulated cosine does not
/// exceed `x`; a half turn if there is none before the end of the table.
pub open spec fn acos_scan(x: int, d: int) -> int
    decreases 180 - d,
{
    if d >= 180 {
        180
    } else if cos_fx(d) <= x {
        d
    } else {
        acos_scan(x, d + 1)
    }
}

/// The angle, in whole degrees, whose tabulated cosine first falls to `x`
/// or below.  This is the model's arc cosine at whole-degree resolution.
pub open spec fn acos_fx(x: int) -> int {
    acos_scan(x, 0)
}

/// Arc cosine at whole-degree resolution, for a fixed-point cosine in
/// `[-SCALE, SCALE]`.
pub fn acos_deg(x: i64) -> (r: i64)
    requires
        -(SCALE as int) <= x <= SCALE as int,
    ensures
        r as int == acos_fx(x as int),
        0 <= r <= 180,
{
    let mut d: i64 = 0;
    loop
        invariant
            0 <= d <= 180,
            acos_fx(x as int) == acos_scan(x as int, d as int),
            -(SCALE as int) <= x <= SCALE as int,
        decreases 180 - d,
    {
        if d >= 180 {
            return d;
        }
        if cos_deg(d) <= x {
            return d;
        }
        d = d + 1;
    }
}

/// Dot product at raw scale: the exact sum of the componentwise products.
pub open spec fn dot_raw(a: Vec3, b: Vec3) -> int {
    (a.x as int) * (b.x as int) + (a.y as int) * (b.y as int) + (a.z as int) * (b.z as int)
}

/// The cosine of the angle between two vectors, in millionths: the raw dot
/// product scaled by the vector lengths, forced into `[-SCALE, SCALE]` to
/// protect against the rounding of the integer lengths.
pub open spec fn ndot_s(a: Vec3, b: Vec3) -> int {
    clip(
        tdiv(dot_raw(a, b) * (SCALE as int), norm_fx(a) * norm_fx(b)),
        -(SCALE as int),
        SCALE as int,
    )
}

/// The angle between two nonzero vectors, in whole degrees.
pub open spec fn angle_between_s(a: Vec3, b: Vec3) -> int {
    acos_fx(ndot_s(a, b))
}

/// The signed angle of attack, in whole degrees: the angle from the lift
/// reference axis `up` to the velocity, less the angle from `up` to the
/// nose direction `forward`.  Zero velocity gives zero angle of attack.
pub open spec fn angle_of_attack_s(velocity: Vec3, up: Vec3, forward: Vec3) -> int {
    if norm_fx(velocity) == 0 {
        0
    } else {
        angle_between_s(up, velocity) - angle_between_s(up, forward)
    }
}

fn dot_raw_exec(a: Vec3, b: Vec3) -> (r: i128)
    requires
        in_range(a, 0x1_0000_0000_0000),
        in_range(b, 0x1_0000_0000_0000),
    ensures
        r == dot_raw(a, b),
{
    proof {
        let k = 0x1_0000_0000_0000int;
        assert(abs_i((a.x as int) * (b.x as int)) <= k * k && abs_i((a.y as int) * (b.y as int))
            <= k * k && abs_i((a.z as int) * (b.z as int)) <= k * k) by (nonlinear_arith)
            requires
                abs_i(a.x as int) <= k,
                abs_i(b.x as int) <= k,
                abs_i(a.y as int) <= k,
                abs_i(b.y as int) <= k,
                abs_i(a.z as int) <= k,
                abs_i(b.z as int) <= k,
                k == 0x1_0000_0000_0000int,
        ;
    }
    (a.x as i128) * (b.x as i128) + (a.y as i128) * (b.y as i128) + (a.z as i128) * (b.z as i128)
}

/// The angle between two nonzero vectors, in whole degrees, recovered from
/// their normalized dot product.
pub fn angle_between_deg(a: Vec3, b: Vec3) -> (r: i64)
    requires
        in_range(a, 0x1_0000_0000_0000),
        in_range(b, 0x1_0000_0000_0000),
        norm_fx(a) > 0,
        norm_fx(b) > 0,
    ensures
        r as int == angle_between_s(a, b),
        0 <= r <= 180,
{
    let na = a.norm();
    let nb = b.norm();
    let d = dot_raw_exec(a, b);
    proof {
        let k = 0x1_0000_0000_0000int;
        crate::vec3::lemma_norm_bound(a, k);
        crate::vec3::lemma_norm_bound(b, k);
        assert(abs_i((a.x as int) * (b.x as int)) <= k * k && abs_i(
            (a.y as int) * (b.y as int),
        ) <= k * k && abs_i((a.z as int) * (b.z as int)) <= k * k) by (nonlinear_arith)
            requires
                abs_i(a.x as int) <= k,
                abs_i(b.x as int) <= k,
                abs_i(a.y as int) <= k,
                abs_i(b.y as int) <= k,
                abs_i(a.z as int) <= k,
                abs_i(b.z as int) <= k,
                k == 0x1_0000_0000_0000int,
        ;
        assert(abs_i(d as int) <= 3 * k * k);
        assert(abs_i((d as int) * (SCALE as int)) <= 3 * k * k * (SCALE as int)
            < 0x8000_0000_0000_0000_0000_0000_0000_0000int) by (nonlinear_arith)
            requires
                abs_i(d as int) <= 3 * k * k,
                k == 0x1_0000_0000_0000int,
                SCALE == 1_000_000i64,
        ;
        assert(0 < (na as int) * (nb as int) <= 4 * k * k
            < 0x8000_0000_0000_0000_0000_0000_0000_0000int) by (nonlinear_arith)
            requires
                0 < na as int <= 2 * k,
                0 < nb as int <= 2 * k,
                k == 0x1_0000_0000_0000int,
        ;
    }
    let num = d * (SCALE as i128);
    let den = (na as i128) * (nb as i128);
    let q = tdiv_i128(num, den);
    let c: i64 = if q < -(SCALE as i128) {
        -SCALE
    } else if q > SCALE as i128 {
        SCALE
    } else {
        q as i64
    };
    assert(c as int == ndot_s(a, b));
    acos_deg(c)
}

/// Signed angle of attack in whole degrees, from the velocity, the lift
/// reference axis and the nose direction.  Protected at zero velocity:
/// the angle of attack is then zero, never undefined.
pub fn angle_of_attack(velocity: Vec3, up: Vec3, forward: Vec3) -> (r: i64)
    requires
        in_range(velocity, 0x1_0000_0000_0000),
        in_range(up, 0x1_0000_0000_0000),
        in_range(forward, 0x1_0000_0000_0000),
        norm_fx(up) > 0,
        norm_fx(forward) > 0,
    ensures
        r as int == angle_of_attack_s(velocity, up, forward),
        -180 <= r <= 180,
{
    let nv = velocity.norm();
    if nv == 0 {
        0
    } else {
        let a2 = angle_between_deg(up, velocity);
        let a1 = angle_between_deg(up, forward);
        a2 - a1
    }
}

} // verus!
