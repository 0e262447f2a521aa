//! Elementary functions on fixed-point numbers: sine, cosine and tangent,
//! the inverse tangent and sine, and the natural logarithm. Each is a short
//! polynomial after a range reduction, and each contract gives that polynomial
//! exactly, together with the range of the result.

use crate::scalar::Scalar;
use vstd::prelude::*;

verus! {

/// The raw value nearest to pi.
pub const PI_RAW: i64 = 205887;

/// The raw value nearest to pi / 2.
pub const HALF_PI_RAW: i64 = 102944;

/// The raw value nearest to pi / 4.
pub const QUARTER_PI_RAW: i64 = 51472;

/// The raw value nearest to 2 pi.
pub const TWO_PI_RAW: i64 = 411775;

/// The raw value nearest to the natural logarithm of 2.
pub const LN_2_RAW: i64 = 45426;

/// Pi.
pub open spec fn spec_pi() -> Scalar {
    Scalar { raw: PI_RAW }
}

/// Pi.
#[verifier::when_used_as_spec(spec_pi)]
pub fn pi() -> (r: Scalar)
    ensures
        r == spec_pi(),
{
    Scalar { raw: PI_RAW }
}

/// An angle given in degrees, in radians.
pub open spec fn spec_radians(degrees: Scalar) -> Scalar {
    degrees.times(Scalar { raw: PI_RAW }).over(Scalar::from_int(180))
}

/// An angle given in degrees, in radians.
#[verifier::when_used_as_spec(spec_radians)]
pub fn radians(degrees: Scalar) -> (r: Scalar)
    ensures
        r == spec_radians(degrees),
{
    degrees.times(Scalar { raw: PI_RAW }).over(Scalar::from_int(180))
}

/// The sine of an angle in `[0, pi / 2]`: the Taylor polynomial of degree nine in
/// nested form, limited to `[0, 1]`.
pub open spec fn spec_sin_first_quadrant(y: Scalar) -> Scalar {
    let y2 = y.times(y);
    let p4 = Scalar::one().minus(y2.over(Scalar::from_int(72)));
    let p3 = Scalar::one().minus(y2.over(Scalar::from_int(42)).times(p4));
    let p2 = Scalar::one().minus(y2.over(Scalar::from_int(20)).times(p3));
    let p1 = Scalar::one().minus(y2.over(Scalar::from_int(6)).times(p2));
    y.times(p1).clamp(Scalar::zero(), Scalar::one())
}

/// The sine of an angle in `[0, pi / 2]`: the Taylor polynomial of degree nine in
/// nested form, limited to `[0, 1]`.
#[verifier::when_used_as_spec(spec_sin_first_quadrant)]
pub fn sin_first_quadrant(y: Scalar) -> (r: Scalar)
    ensures
        r == spec_sin_first_quadrant(y),
        0 <= r@ <= 65536,
{
    let y2 = y.times(y);
    let p4 = Scalar::one().minus(y2.over(Scalar::from_int(72)));
    let p3 = Scalar::one().minus(y2.over(Scalar::from_int(42)).times(p4));
    let p2 = Scalar::one().minus(y2.over(Scalar::from_int(20)).times(p3));
    let p1 = Scalar::one().minus(y2.over(Scalar::from_int(6)).times(p2));
    y.times(p1).clamp(Scalar::zero(), Scalar::one())
}

/// The sine of an angle in radians. The angle is reduced into one turn and
/// mirrored into the first quadrant.
pub open spec fn spec_sin(x: Scalar) -> Scalar {
    let turn = x.modulo(Scalar { raw: TWO_PI_RAW });
    if turn.raw <= HALF_PI_RAW {
        sin_first_quadrant(turn)
    } else if turn.raw <= PI_RAW {
        sin_first_quadrant(Scalar { raw: PI_RAW }.minus(turn))
    } else if turn.raw <= PI_RAW + HALF_PI_RAW {
        sin_first_quadrant(turn.minus(Scalar { raw: PI_RAW })).negate()
    } else {
        sin_first_quadrant(Scalar { raw: TWO_PI_RAW }.minus(turn)).negate()
    }
}

/// The sine of an angle in radians. The angle is reduced into one turn and
/// mirrored into the first quadrant.
#[verifier::when_used_as_spec(spec_sin)]
pub fn sin(x: Scalar) -> (r: Scalar)
    ensures
        r == spec_sin(x),
        -65536 <= r@ <= 65536,
{
    let turn = x.modulo(Scalar { raw: TWO_PI_RAW });
    if turn.raw <= HALF_PI_RAW {
        sin_first_quadrant(turn)
    } else if turn.raw <= PI_RAW {
        sin_first_quadrant(Scalar { raw: PI_RAW }.minus(turn))
    } else if turn.raw <= PI_RAW + HALF_PI_RAW {
        sin_first_quadrant(turn.minus(Scalar { raw: PI_RAW })).negate()
    } else {
        sin_first_quadrant(Scalar { raw: TWO_PI_RAW }.minus(turn)).negate()
    }
}

/// The cosine of an angle in radians: the sine of the angle a quarter turn on.
pub open spec fn spec_cos(x: Scalar) -> Scalar {
    sin(x.plus(Scalar { raw: HALF_PI_RAW }))
}

/// The cosine of an angle in radians: the sine of the angle a quarter turn on.
#[verifier::when_used_as_spec(spec_cos)]
pub fn cos(x: Scalar) -> (r: Scalar)
    ensures
        r == spec_cos(x),
        -65536 <= r@ <= 65536,
{
    sin(x.plus(Scalar { raw: HALF_PI_RAW }))
}

/// The tangent of an angle in radians: sine over cosine.
pub open spec fn spec_tan(x: Scalar) -> Scalar {
    sin(x).over(cos(x))
}

/// The tangent of an angle in radians: sine over cosine.
#[verifier::when_used_as_spec(spec_tan)]
pub fn tan(x: Scalar) -> (r: Scalar)
    ensures
        r == spec_tan(x),
{
    sin(x).over(cos(x))
}

/// The inverse tangent of a ratio in `[0, 1]`: an odd polynomial of degree nine,
/// limited to `[0, pi / 4]`.
pub open spec fn spec_atan_unit(q: Scalar) -> Scalar {
    let q2 = q.times(q);
    let p4 = Scalar { raw: 1365 };
    let p3 = Scalar { raw: -5579i64 }.plus(q2.times(p4));
    let p2 = Scalar { raw: 11806 }.plus(q2.times(p3));
    let p1 = Scalar { raw: -21647i64 }.plus(q2.times(p2));
    let p0 = Scalar { raw: 65527 }.plus(q2.times(p1));
    q.times(p0).clamp(Scalar::zero(), Scalar { raw: QUARTER_PI_RAW })
}

/// The inverse tangent of a ratio in `[0, 1]`: an odd polynomial of degree nine,
/// limited to `[0, pi / 4]`.
#[verifier::when_used_as_spec(spec_atan_unit)]
pub fn atan_unit(q: Scalar) -> (r: Scalar)
    ensures
        r == spec_atan_unit(q),
        0 <= r@ <= 51472,
{
    let q2 = q.times(q);
    let p4 = Scalar { raw: 1365 };
    let p3 = Scalar { raw: -5579i64 }.plus(q2.times(p4));
    let p2 = Scalar { raw: 11806 }.plus(q2.times(p3));
    let p1 = Scalar { raw: -21647i64 }.plus(q2.times(p2));
    let p0 = Scalar { raw: 65527 }.plus(q2.times(p1));
    q.times(p0).clamp(Scalar::zero(), Scalar { raw: QUARTER_PI_RAW })
}

/// The angle of the point `(x, y)` seen from the origin, in `[-pi, pi]`; zero for
/// the origin itself.
pub open spec fn spec_atan2(y: Scalar, x: Scalar) -> Scalar {
    let ax = x.abs();
    let ay = y.abs();
    if ax.raw == 0 && ay.raw == 0 {
        Scalar::zero()
    } else {
        let steep = ay.raw > ax.raw;
        let q = if steep { ax.over(ay) } else { ay.over(ax) };
        let base = atan_unit(q);
        let folded = if steep { Scalar { raw: HALF_PI_RAW }.minus(base) } else { base };
        let half = if x.raw < 0 { Scalar { raw: PI_RAW }.minus(folded) } else { folded };
        if y.raw < 0 { half.negate() } else { half }
    }
}

/// The angle of the point `(x, y)` seen from the origin, in `[-pi, pi]`; zero for
/// the origin itself.
#[verifier::when_used_as_spec(spec_atan2)]
pub fn atan2(y: Scalar, x: Scalar) -> (r: Scalar)
    ensures
        r == spec_atan2(y, x),
        -205887 <= r@ <= 205887,
        x@ >= 0 ==> -102944 <= r@ <= 102944,
{
    let ax = x.abs();
    let ay = y.abs();
    if ax.raw == 0 && ay.raw == 0 {
        Scalar::zero()
    } else {
        let steep = ay.raw > ax.raw;
        let q = if steep { ax.over(ay) } else { ay.over(ax) };
        let base = atan_unit(q);
        let folded = if steep { Scalar { raw: HALF_PI_RAW }.minus(base) } else { base };
        let half = if x.raw < 0 { Scalar { raw: PI_RAW }.minus(folded) } else { folded };
        if y.raw < 0 { half.negate() } else { half }
    }
}

/// The inverse sine, in `[-pi / 2, pi / 2]`. An argument outside `[-1, 1]` is
/// taken as the nearer of the two bounds.
pub open spec fn spec_asin(y: Scalar) -> Scalar {
    let s = y.clamp(Scalar::one().negate(), Scalar::one());
    let c = Scalar::one().minus(s.times(s)).sqrt();
    atan2(s, c)
}

/// The inverse sine, in `[-pi / 2, pi / 2]`. An argument outside `[-1, 1]` is
/// taken as the nearer of the two bounds.
#[verifier::when_used_as_spec(spec_asin)]
pub fn asin(y: Scalar) -> (r: Scalar)
    ensures
        r == spec_asin(y),
        -102944 <= r@ <= 102944,
{
    let s = y.clamp(Scalar::one().negate(), Scalar::one());
    let c = Scalar::one().minus(s.times(s)).sqrt();
    atan2(s, c)
}

/// Doubles a positive mantissa until it reaches one, counting the doublings
/// down from `exponent`.
pub open spec fn normalized_up(mantissa: int, exponent: int) -> (int, int)
    decreases (if mantissa < 65536 { 65536 - mantissa } else { 0 }),
{
    if 0 < mantissa < 65536 {
        normalized_up(2 * mantissa, exponent - 1)
    } else {
        (mantissa, exponent)
    }
}

/// Halves a mantissa until it is below two, counting the halvings up from
/// `exponent`.
pub open spec fn normalized_down(mantissa: int, exponent: int) -> (int, int)
    decreases mantissa,
{
    if mantissa >= 131072 {
        normalized_down(mantissa / 2, exponent + 1)
    } else {
        (mantissa, exponent)
    }
}

/// The natural logarithm of a mantissa in `[1, 2)`: with `t = (m - 1) / (m + 1)`,
/// the series `2 t (1 + t^2 / 3 + t^4 / 5 + t^6 / 7 + t^8 / 9)`.
pub open spec fn spec_ln_mantissa(m: Scalar) -> Scalar {
    let t = m.minus(Scalar::one()).over(m.plus(Scalar::one()));
    let t2 = t.times(t);
    let p4 = Scalar::one().over(Scalar::from_int(9));
    let p3 = Scalar::one().over(Scalar::from_int(7)).plus(t2.times(p4));
    let p2 = Scalar::one().over(Scalar::from_int(5)).plus(t2.times(p3));
    let p1 = Scalar::one().over(Scalar::from_int(3)).plus(t2.times(p2));
    let p0 = Scalar::one().plus(t2.times(p1));
    Scalar::from_int(2).times(t).times(p0)
}

/// The natural logarithm of a mantissa in `[1, 2)`: with `t = (m - 1) / (m + 1)`,
/// the series `2 t (1 + t^2 / 3 + t^4 / 5 + t^6 / 7 + t^8 / 9)`.
#[verifier::when_used_as_spec(spec_ln_mantissa)]
pub fn ln_mantissa(m: Scalar) -> (r: Scalar)
    ensures
        r == spec_ln_mantissa(m),
{
    let t = m.minus(Scalar::one()).over(m.plus(Scalar::one()));
    let t2 = t.times(t);
    let p4 = Scalar::one().over(Scalar::from_int(9));
    let p3 = Scalar::one().over(Scalar::from_int(7)).plus(t2.times(p4));
    let p2 = Scalar::one().over(Scalar::from_int(5)).plus(t2.times(p3));
    let p1 = Scalar::one().over(Scalar::from_int(3)).plus(t2.times(p2));
    let p0 = Scalar::one().plus(t2.times(p1));
    Scalar::from_int(2).times(t).times(p0)
}

/// The natural logarithm. The argument is written as `m * 2^e` with `m` in
/// `[1, 2)`, and the result is `e ln 2 + ln m`. An argument that is not
/// positive has the smallest representable value as its logarithm.
pub open spec fn spec_ln(x: Scalar) -> Scalar {
    if x.raw <= 0 {
        Scalar { raw: crate::scalar::RAW_MIN }
    } else {
        let (up, e_up) = normalized_up(x.raw as int, 0);
        let (m, e) = normalized_down(up, e_up);
        Scalar { raw: (e * LN_2_RAW) as i64 }.plus(ln_mantissa(Scalar { raw: m as i64 }))
    }
}

/// The natural logarithm. The argument is written as `m * 2^e` with `m` in
/// `[1, 2)`, and the result is `e ln 2 + ln m`. An argument that is not
/// positive has the smallest representable value as its logarithm.
#[verifier::when_used_as_spec(spec_ln)]
pub fn ln(x: Scalar) -> (r: Scalar)
    ensures
        r == spec_ln(x),
{
    if x.raw <= 0 {
        return Scalar { raw: crate::scalar::RAW_MIN };
    }
    let mut mantissa: i64 = x.raw;
    let mut exponent: i64 = 0;
    while mantissa < 65536
        invariant
            0 < mantissa,
            exponent <= 0,
            mantissa >= 1 - exponent,
            exponent < 0 ==> mantissa < 131072,
            exponent == 0 ==> mantissa == x.raw,
            normalized_up(mantissa as int, exponent as int) == normalized_up(x.raw as int, 0),
        decreases (if mantissa < 65536 { 65536 - mantissa } else { 0 }),
    {
        mantissa = mantissa * 2;
        exponent = exponent - 1;
    }
    while mantissa >= 131072
        invariant
            65536 <= mantissa,
            -131072 < exponent,
            exponent < 0 ==> mantissa < 131072,
            exponent >= 0 ==> mantissa + exponent * 65536 <= x.raw,
            normalized_down(mantissa as int, exponent as int) == normalized_down(
                normalized_up(x.raw as int, 0).0,
                normalized_up(x.raw as int, 0).1,
            ),
        decreases mantissa,
    {
        mantissa = mantissa / 2;
        exponent = exponent + 1;
    }
    Scalar { raw: exponent * LN_2_RAW }.plus(ln_mantissa(Scalar { raw: mantissa }))
}

} // verus!
