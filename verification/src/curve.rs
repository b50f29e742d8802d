//! Coefficient curves and their sampled tables.
//!
//! A lift or drag characteristic is given as control points of
//! `(coefficient, angle)`, angles in fixed-point degrees strictly ascending
//! and spanning at least a quarter turn to either side.  Building a
//! `CoefficientTable` evaluates the piecewise-linear interpolant through the
//! points at each whole degree from ninety below to one below ninety: 180
//! samples, always.  A lookup rounds its angle to the nearest degree and
//! clamps to the table boundary, so it is total: queries beyond the domain
//! return the boundary sample, never wrap and never fail.

use vstd::prelude::*;

use crate::fixed::{abs_i, clip, tdiv, tdiv_i128, HALF, SCALE};

verus! {

/// Largest magnitude accepted for a control-point coefficient.
pub const COEF_LIMIT: i64 = 0x100_0000;

/// Largest magnitude accepted for a control-point angle, in fixed-point
/// degrees.
pub const ANGLE_LIMIT: i64 = 0x10_0000_0000;

/// Largest magnitude an interpolated sample can reach: a sample lies within
/// one coefficient span of its segment's starting coefficient.
pub const SAMPLE_BOUND: i64 = 0x300_0000;

/// Why a curve was rejected at build time.  A malformed curve is refused
/// before any tick runs: a partially built table would produce nonsensical
/// forces with no visible symptom.
#[derive(Clone, Copy, PartialEq, Eq, Structural, Debug)]
pub enum CurveError {
    /// Fewer than two control points.
    TooFewPoints,
    /// Control-point angles not strictly ascending.
    NonAscendingAngles,
    /// Control points do not span the quarter turn to either side.
    DomainNotCovered,
}

/// Control-point coefficients and angles within the accepted magnitudes.
pub open spec fn points_in_limits(c: Seq<(i64, i64)>) -> bool {
    forall|i: int|
        0 <= i < c.len() ==> abs_i(#[trigger] c[i].0 as int) <= COEF_LIMIT as int && abs_i(
            c[i].1 as int,
        ) <= ANGLE_LIMIT as int
}

/// Adjacent control-point angles strictly ascend.
pub open spec fn angles_ascending(c: Seq<(i64, i64)>) -> bool {
    forall|i: int| 0 <= i < c.len() - 1 ==> (#[trigger] c[i].1) < c[i + 1].1
}

/// The control points span at least ninety degrees to either side.
pub open spec fn covers_domain(c: Seq<(i64, i64)>) -> bool {
    c.len() > 0 && c[0].1 <= -90 * (SCALE as int) && c[c.len() - 1].1 >= 90 * (SCALE as int)
}

/// A curve the sampler accepts.
pub open spec fn curve_valid(c: Seq<(i64, i64)>) -> bool {
    c.len() >= 2 && angles_ascending(c) && covers_domain(c)
}

/// The error a malformed curve is rejected with: absent points weigh
/// heavier than unsorted angles, and those heavier than a short domain.
pub open spec fn curve_error(c: Seq<(i64, i64)>) -> CurveError {
    if c.len() < 2 {
        CurveError::TooFewPoints
    } else if !angles_ascending(c) {
        CurveError::NonAscendingAngles
    } else {
        CurveError::DomainNotCovered
    }
}

/// The interpolant of the segment from `p0` to `p1`, at angle `a`.
pub open spec fn lerp(p0: (i64, i64), p1: (i64, i64), a: int) -> int {
    p0.0 + tdiv((p1.0 - p0.0) * (a - p0.1), p1.1 - p0.1)
}

/// The piecewise-linear interpolant through the control points, at angle
/// `a`: the segment whose far end first lies beyond `a` is the one
/// evaluated, and past the last point the last coefficient holds.
pub open spec fn interp_s(c: Seq<(i64, i64)>, a: int) -> int
    decreases c.len(),
{
    if c.len() == 0 {
        0
    } else if c.len() == 1 {
        c[0].0 as int
    } else if a < c[1].1 {
        lerp(c[0], c[1], a)
    } else {
        interp_s(c.drop_first(), a)
    }
}

/// The angle a sample index stands for: whole degrees from ninety below.
pub open spec fn sample_angle(i: int) -> int {
    (i - 90) * (SCALE as int)
}

/// A built coefficient table: one sample per whole degree of angle of
/// attack over a half turn.
#[derive(Clone, Debug)]
pub struct CoefficientTable {
    pub samples: Vec<i64>,
}

/// The nearest whole degree to a fixed-point angle, ties away from zero.
pub open spec fn round_degrees(a: int) -> int {
    if a >= 0 {
        (a + (HALF as int)) / (SCALE as int)
    } else {
        -((-a + (HALF as int)) / (SCALE as int))
    }
}

/// The table index a fixed-point angle falls on: the nearest whole degree,
/// shifted to the table base and clamped to the table boundary.
pub open spec fn table_index(a: int) -> int {
    clip(round_degrees(a) + 90, 0, 179)
}

impl CoefficientTable {
    /// A well-formed table: exactly 180 samples, each within the magnitude
    /// interpolation can produce.
    pub open spec fn wf(self) -> bool {
        &&& self.samples.len() == 180
        &&& forall|i: int|
            0 <= i < 180 ==> abs_i(#[trigger] self.samples[i] as int) <= SAMPLE_BOUND as int
    }

    /// The sample a fixed-point angle falls on.
    pub open spec fn lookup_s(self, a: int) -> int {
        self.samples[table_index(a)] as int
    }

    /// Look a coefficient up by angle in fixed-point degrees.  Total for
    /// every angle: out-of-domain queries clamp to the boundary sample.
    pub fn lookup(&self, angle: i64) -> (r: i64)
        requires
            self.wf(),
        ensures
            r as int == self.lookup_s(angle as int),
    {
        let deg: i64 = if angle >= 0 {
            let q = (angle as u128 + HALF as u128) / (SCALE as u128);
            assert(q <= i64::MAX as u128) by (nonlinear_arith)
                requires
                    q as int == (angle as u128 + HALF as u128) as int / (SCALE as int),
                    angle as u128 + HALF as u128 <= i64::MAX as u128 + 500_000u128,
                    SCALE == 1_000_000i64,
            ;
            q as i64
        } else {
            let m: u128 = (-(angle as i128)) as u128;
            let q = (m + HALF as u128) / (SCALE as u128);
            assert(q <= i64::MAX as u128) by (nonlinear_arith)
                requires
                    q as int == (m + HALF as u128) as int / (SCALE as int),
                    m + HALF as u128 <= 0x8000_0000_0000_0000u128 + 500_000u128,
                    SCALE == 1_000_000i64,
            ;
            let v: i128 = -(q as i128);
            v as i64
        };
        assert(deg as int == round_degrees(angle as int));
        let shifted = deg + 90;
        let idx: usize = if shifted < 0 {
            0
        } else if shifted > 179 {
            179
        } else {
            shifted as usize
        };
        assert(idx as int == table_index(angle as int));
        self.samples[idx]
    }
}

/// The table holds exactly the whole-degree samples of the interpolant
/// through the given control points.
pub open spec fn table_matches(t: CoefficientTable, c: Seq<(i64, i64)>) -> bool {
    &&& t.wf()
    &&& forall|i: int|
        0 <= i < 180 ==> #[trigger] t.samples[i] as int == interp_s(c, sample_angle(i))
}

/// Strict ascent of adjacent angles carries to any pair in order.
pub proof fn lemma_ascending_pairwise(c: Seq<(i64, i64)>, i: int, j: int)
    requires
        angles_ascending(c),
        0 <= i <= j < c.len(),
    ensures
        c[i].1 <= c[j].1,
    decreases j - i,
{
    if i < j {
        lemma_ascending_pairwise(c, i + 1, j);
    }
}

/// Interpolation evaluates the segment that brackets the angle.
pub proof fn lemma_interp_segment(c: Seq<(i64, i64)>, j: int, a: int)
    requires
        c.len() >= 2,
        angles_ascending(c),
        0 <= j <= c.len() - 2,
        c[j].1 <= a,
        a < c[j + 1].1,
    ensures
        interp_s(c, a) == lerp(c[j], c[j + 1], a),
    decreases j,
{
    if j == 0 {
        assert(a < c[1].1);
    } else {
        let d = c.drop_first();
        assert(forall|i: int| 0 <= i < d.len() ==> d[i] == c[i + 1]);
        assert(angles_ascending(d));
        lemma_ascending_pairwise(c, 1, j);
        assert(a >= c[1].1);
        lemma_interp_segment(d, j - 1, a);
        assert(d[j - 1] == c[j] && d[j] == c[j + 1]);
    }
}

/// At a control point's own angle the interpolant returns its coefficient
/// exactly: samples coincide with knots.
pub proof fn lemma_interp_at_knot(c: Seq<(i64, i64)>, k: int)
    requires
        angles_ascending(c),
        c.len() >= 1,
        0 <= k < c.len(),
    ensures
        interp_s(c, c[k].1 as int) == c[k].0 as int,
    decreases c.len(),
{
    let a = c[k].1 as int;
    if c.len() == 1 {
    } else if k == 0 {
        assert(a < c[1].1);
        assert(tdiv((c[1].0 - c[0].0) * (a - c[0].1), c[1].1 - c[0].1) == 0) by {
            assert((c[1].0 - c[0].0) * (a - c[0].1) == 0) by (nonlinear_arith)
                requires
                    a == c[0].1 as int,
            ;
        }
    } else {
        let d = c.drop_first();
        assert(forall|i: int| 0 <= i < d.len() ==> d[i] == c[i + 1]);
        assert(angles_ascending(d));
        assert(a >= c[1].1) by {
            lemma_ascending_pairwise(c, 1, k);
        }
        lemma_interp_at_knot(d, k - 1);
    }
}

/// Lookups clamp, they never wrap: any angle at or below the table base
/// falls on the first sample, and any angle from half a degree under the
/// table top upward — ninety degrees, two hundred degrees — falls on the
/// last sample.
pub proof fn lemma_lookup_clamped(t: CoefficientTable, a: int)
    requires
        t.wf(),
    ensures
        a <= -89_500_000 ==> t.lookup_s(a) == t.samples[0] as int,
        a >= 89_500_000 ==> t.lookup_s(a) == t.samples[179] as int,
{
    if a <= -89_500_000 {
        let m = -a;
        assert((m + (HALF as int)) / (SCALE as int) >= 90) by (nonlinear_arith)
            requires
                m >= 89_500_000,
                HALF == 500_000i64,
                SCALE == 1_000_000i64,
        ;
        assert(round_degrees(a) <= -90);
    }
    if a >= 89_500_000 {
        assert((a + (HALF as int)) / (SCALE as int) >= 90) by (nonlinear_arith)
            requires
                a >= 89_500_000,
                HALF == 500_000i64,
                SCALE == 1_000_000i64,
        ;
        assert(round_degrees(a) >= 90);
    }
}

/// A lookup on a whole degree inside the table hits that degree's sample
/// exactly, so a built table returns a control point's own coefficient at
/// the control point's angle.
pub proof fn lemma_lookup_at_knot(c: Seq<(i64, i64)>, t: CoefficientTable, k: int, d: int)
    requires
        t.wf(),
        angles_ascending(c),
        0 <= k < c.len(),
        c[k].1 == d * (SCALE as int),
        -90 <= d <= 89,
        forall|i: int|
            0 <= i < 180 ==> #[trigger] t.samples[i] as int == interp_s(c, sample_angle(i)),
    ensures
        t.lookup_s(c[k].1 as int) == c[k].0 as int,
{
    let a = d * (SCALE as int);
    if a >= 0 {
        assert((a + (HALF as int)) / (SCALE as int) == d) by (nonlinear_arith)
            requires
                a == d * (SCALE as int),
                0 <= a,
                HALF == 500_000i64,
                SCALE == 1_000_000i64,
                0 <= d,
        ;
    } else {
        assert((-a + (HALF as int)) / (SCALE as int) == -d) by (nonlinear_arith)
            requires
                a == d * (SCALE as int),
                a < 0,
                HALF == 500_000i64,
                SCALE == 1_000_000i64,
                d < 0,
        ;
    }
    assert(round_degrees(a) == d);
    assert(table_index(a) == d + 90);
    assert(sample_angle(d + 90) == a) by (nonlinear_arith)
        requires
            a == d * (SCALE as int),
    ;
    lemma_interp_at_knot(c, k);
}

/// One interpolation step: the bracketed segment evaluated at `a`.
fn lerp_exec(p0: (i64, i64), p1: (i64, i64), a: i64) -> (r: i64)
    requires
        abs_i(p0.0 as int) <= COEF_LIMIT as int,
        abs_i(p1.0 as int) <= COEF_LIMIT as int,
        abs_i(p0.1 as int) <= ANGLE_LIMIT as int,
        abs_i(p1.1 as int) <= ANGLE_LIMIT as int,
        p0.1 <= a < p1.1,
    ensures
        r as int == lerp(p0, p1, a as int),
        abs_i(r as int) <= SAMPLE_BOUND as int,
{
    let dc: i64 = p1.0 - p0.0;
    let da: i64 = a - p0.1;
    let dd: i64 = p1.1 - p0.1;
    proof {
        assert(abs_i((dc as int) * (da as int)) <= 2 * (COEF_LIMIT as int) * (2 * (
        ANGLE_LIMIT as int))) by (nonlinear_arith)
            requires
                abs_i(dc as int) <= 2 * (COEF_LIMIT as int),
                abs_i(da as int) <= 2 * (ANGLE_LIMIT as int),
        ;
    }
    let num: i128 = (dc as i128) * (da as i128);
    let q = tdiv_i128(num, dd as i128);
    proof {
        crate::fixed::lemma_tdiv_scale_bound(dc as int, da as int, dd as int);
    }
    p0.0 + (q as i64)
}

/// Build the 180 whole-degree samples of the interpolant through the given
/// control points, or reject a malformed curve.  Success exactly when the
/// curve has at least two points, strictly ascending angles, and a domain
/// covering the quarter turn to either side.
#[verifier::rlimit(60)]
pub fn build_table(curve: &Vec<(i64, i64)>) -> (r: Result<CoefficientTable, CurveError>)
    requires
        points_in_limits(curve@),
    ensures
        r is Ok <==> curve_valid(curve@),
        match r {
            Ok(t) => table_matches(t, curve@),
            Err(e) => e == curve_error(curve@),
        },
{
    let n = curve.len();
    if n < 2 {
        return Err(CurveError::TooFewPoints);
    }
    let mut i: usize = 0;
    while i < n - 1
        invariant
            n == curve.len() >= 2,
            0 <= i <= n - 1,
            forall|k: int| 0 <= k < i ==> (#[trigger] curve@[k].1) < curve@[k + 1].1,
        decreases n - 1 - i,
    {
        if curve[i].1 >= curve[i + 1].1 {
            return Err(CurveError::NonAscendingAngles);
        }
        i = i + 1;
    }
    assert(angles_ascending(curve@));
    if !(curve[0].1 <= -90 * SCALE && curve[n - 1].1 >= 90 * SCALE) {
        return Err(CurveError::DomainNotCovered);
    }
    let mut samples: Vec<i64> = Vec::new();
    let mut deg: usize = 0;
    while deg < 180
        invariant
            n == curve.len() >= 2,
            curve_valid(curve@),
            points_in_limits(curve@),
            samples.len() == deg <= 180,
            forall|k: int|
                0 <= k < deg ==> #[trigger] samples[k] as int == interp_s(
                    curve@,
                    sample_angle(k),
                ),
            forall|k: int| 0 <= k < deg ==> abs_i(#[trigger] samples[k] as int) <= SAMPLE_BOUND as int,
        decreases 180 - deg,
    {
        let a: i64 = (deg as i64 - 90) * SCALE;
        let mut j: usize = 0;
        while j < n - 2 && curve[j + 1].1 <= a
            invariant
                n == curve.len() >= 2,
                curve_valid(curve@),
                0 <= j <= n - 2,
                curve@[j as int].1 <= a,
                a == sample_angle(deg as int),
                deg < 180,
            decreases n - 2 - j,
        {
            j = j + 1;
        }
        proof {
            if j == n - 2 {
                assert(curve@[j + 1].1 >= 90 * (SCALE as int));
                assert(a < 90 * (SCALE as int));
            }
        }
        assert(a < curve@[j + 1].1);
        assert(abs_i(curve@[j as int].0 as int) <= COEF_LIMIT as int && abs_i(
            curve@[j as int].1 as int,
        ) <= ANGLE_LIMIT as int);
        assert(abs_i(curve@[j + 1].0 as int) <= COEF_LIMIT as int && abs_i(curve@[j + 1].1 as int)
            <= ANGLE_LIMIT as int);
        let s = lerp_exec(curve[j], curve[j + 1], a);
        proof {
            lemma_interp_segment(curve@, j as int, a as int);
        }
        samples.push(s);
        deg = deg + 1;
    }
    Ok(CoefficientTable { samples })
}

} // verus!
