//! Unit conversions, rounding, and the two interpolation primitives
//! (`fraction` and `lerp`) that every chart tween is built from.

use vstd::prelude::*;
use crate::distance::Distance;
use vstd::arithmetic::div_mod::lemma_fundamental_div_mod_converse;

verus! {

/// Bound on the magnitude of the parts of a [`Fraction`] and on the
/// operands of [`round_ratio`]; it keeps every intermediate product in `i64`.
pub const FRACTION_LIMIT: i64 = 0x1_0000_0000;

/// Bound on the numerator handed to [`round_ratio`].
pub const NUMERATOR_LIMIT: i64 = 0x1000_0000_0000_0000;

/// `n / d` rounded to the nearest integer, ties away from zero (`d > 0`).
pub open spec fn round_div(n: int, d: int) -> int {
    if n >= 0 {
        (2 * n + d) / (2 * d)
    } else {
        -((-2 * n + d) / (2 * d))
    }
}

/// `x` held to the range of `i16`.
pub open spec fn saturate_i16(x: int) -> int {
    if x < i16::MIN {
        i16::MIN as int
    } else if x > i16::MAX {
        i16::MAX as int
    } else {
        x
    }
}

/// The value `round_div(n, d)` takes as an `i16`.
pub open spec fn rounded_i16(n: int, d: int) -> i16 {
    saturate_i16(round_div(n, d)) as i16
}

/// Rounds `n / d` to the nearest integer, ties away from zero; a result
/// beyond the range of `i16` saturates at its bound.
pub fn round_ratio(n: i64, d: i64) -> (r: i16)
    requires
        0 < d <= FRACTION_LIMIT,
        -NUMERATOR_LIMIT <= n <= NUMERATOR_LIMIT,
    ensures
        r == rounded_i16(n as int, d as int),
{
    let q: i64 = if n >= 0 {
        (2 * n + d) / (2 * d)
    } else {
        let m: i64 = -n;
        -((2 * m + d) / (2 * d))
    };
    if q < i16::MIN as i64 {
        i16::MIN
    } else if q > i16::MAX as i64 {
        i16::MAX
    } else {
        q as i16
    }
}

/// An exact rational number `num / den`, used for tween positions and
/// correction percentages.
#[derive(Clone, Copy, Debug, PartialEq, Eq, Structural)]
pub struct Fraction {
    pub num: i64,
    pub den: i64,
}

impl Fraction {
    /// A positive denominator, and both parts within [`FRACTION_LIMIT`].
    pub open spec fn wf(self) -> bool {
        &&& 0 < self.den <= FRACTION_LIMIT
        &&& -FRACTION_LIMIT <= self.num <= FRACTION_LIMIT
    }

    /// The fraction zero.
    pub open spec fn spec_zero() -> Fraction {
        Fraction { num: 0, den: 1 }
    }
}

/// The position of `x` between `lo` and `hi` as a fraction:
/// `(x - lo) / (hi - lo)`, and exactly zero when `lo == hi`.
pub open spec fn fraction_spec(x: int, lo: int, hi: int) -> Fraction {
    if hi == lo {
        Fraction::spec_zero()
    } else if hi > lo {
        Fraction { num: (x - lo) as i64, den: (hi - lo) as i64 }
    } else {
        Fraction { num: (lo - x) as i64, den: (lo - hi) as i64 }
    }
}

/// `(x - lo) / (hi - lo)` as an exact fraction; a degenerate bracket
/// (`lo == hi`) gives exactly zero instead of dividing by zero.
pub fn fraction(x: i32, lo: i32, hi: i32) -> (r: Fraction)
    ensures
        r == fraction_spec(x as int, lo as int, hi as int),
        r.wf(),
{
    if hi == lo {
        Fraction { num: 0, den: 1 }
    } else if hi > lo {
        Fraction { num: x as i64 - lo as i64, den: hi as i64 - lo as i64 }
    } else {
        Fraction { num: lo as i64 - x as i64, den: lo as i64 - hi as i64 }
    }
}

/// `lo + t * (hi - lo)`, rounded to the nearest integer (ties away from
/// zero) and held to the range of `i16`.
pub open spec fn lerp_spec(t: Fraction, lo: int, hi: int) -> i16 {
    rounded_i16(lo * t.den + t.num * (hi - lo), t.den as int)
}

proof fn lemma_lerp_numerator_bounds(t: Fraction, lo: i16, hi: i16)
    requires
        t.wf(),
    ensures
        -0x8000_0000_0000 <= lo * t.den <= 0x8000_0000_0000,
        -0x1_0000_0000_0000 <= t.num * (hi - lo) <= 0x1_0000_0000_0000,
        -NUMERATOR_LIMIT <= lo * t.den + t.num * (hi - lo) <= NUMERATOR_LIMIT,
{
    let lo_i = lo as int;
    let hi_i = hi as int;
    let den = t.den as int;
    let num = t.num as int;
    assert(-0x8000 * 0x1_0000_0000 <= lo_i * den <= 0x8000 * 0x1_0000_0000) by (nonlinear_arith)
        requires
            -0x8000 <= lo_i <= 0x8000,
            0 < den <= 0x1_0000_0000,
    ;
    assert(-0x1_0000 * 0x1_0000_0000 <= num * (hi_i - lo_i) <= 0x1_0000 * 0x1_0000_0000)
        by (nonlinear_arith)
        requires
            -0x1_0000 <= hi_i - lo_i <= 0x1_0000,
            -0x1_0000_0000 <= num <= 0x1_0000_0000,
    ;
}

/// Linear interpolation: `lo + t * (hi - lo)`, rounded to the nearest
/// integer, ties away from zero.
pub fn lerp(t: Fraction, lo: i16, hi: i16) -> (r: i16)
    requires
        t.wf(),
    ensures
        r == lerp_spec(t, lo as int, hi as int),
{
    proof {
        lemma_lerp_numerator_bounds(t, lo, hi);
    }
    let n: i64 = lo as i64 * t.den + t.num * (hi as i64 - lo as i64);
    round_ratio(n, t.den)
}

/// [`lerp_spec`] applied to each component of a distance pair.
pub open spec fn lerp_distance_spec(t: Fraction, lo: Distance, hi: Distance) -> Distance {
    Distance(lerp_spec(t, lo.0 as int, hi.0 as int), lerp_spec(t, lo.1 as int, hi.1 as int))
}

/// Interpolates both components of a distance pair with the same tween.
pub fn lerp_distance(t: Fraction, lo: Distance, hi: Distance) -> (r: Distance)
    requires
        t.wf(),
    ensures
        r == lerp_distance_spec(t, lo, hi),
{
    Distance(lerp(t, lo.0, hi.0), lerp(t, lo.1, hi.1))
}

proof fn lemma_round_div_exact(x: int, d: int)
    requires
        d > 0,
    ensures
        round_div(x * d, d) == x,
{
    if x >= 0 {
        assert(x * d >= 0) by (nonlinear_arith)
            requires
                x >= 0,
                d > 0,
        ;
        assert(2 * (x * d) + d == x * (2 * d) + d) by (nonlinear_arith);
        lemma_fundamental_div_mod_converse(2 * (x * d) + d, 2 * d, x, d);
    } else {
        assert(x * d < 0) by (nonlinear_arith)
            requires
                x < 0,
                d > 0,
        ;
        assert(-2 * (x * d) + d == (-x) * (2 * d) + d) by (nonlinear_arith);
        lemma_fundamental_div_mod_converse(-2 * (x * d) + d, 2 * d, -x, d);
    }
}

/// Interpolating at the tween position of `x` gives `x` back exactly, for
/// any bracket that is not degenerate.
pub proof fn lemma_lerp_of_fraction(x: i16, lo: i16, hi: i16)
    requires
        lo != hi,
    ensures
        lerp_spec(fraction_spec(x as int, lo as int, hi as int), lo as int, hi as int) == x,
{
    let t = fraction_spec(x as int, lo as int, hi as int);
    let (xi, l, h) = (x as int, lo as int, hi as int);
    if h > l {
        assert(l * (h - l) + (xi - l) * (h - l) == xi * (h - l)) by (nonlinear_arith);
        lemma_round_div_exact(xi, h - l);
    } else {
        assert(l * (l - h) + (l - xi) * (h - l) == xi * (l - h)) by (nonlinear_arith);
        lemma_round_div_exact(xi, l - h);
    }
}

/// A degenerate bracket, or a value on the lower end of the bracket, has
/// a tween of zero; a value on the upper end of a proper bracket has a
/// tween of one.
pub proof fn lemma_fraction_ends(x: i32, lo: i32, hi: i32)
    ensures
        fraction_spec(lo as int, lo as int, hi as int).num == 0,
        lo != hi ==> fraction_spec(hi as int, lo as int, hi as int).num == fraction_spec(
            hi as int,
            lo as int,
            hi as int,
        ).den,
        fraction_spec(x as int, lo as int, lo as int) == Fraction::spec_zero(),
{
}

/// A speed, in the unit it was given in.
#[derive(Clone, Copy, Debug, PartialEq, Eq, Structural)]
pub enum Velocity {
    Knots(i16),
    MilesPerHour(i16),
}

impl Velocity {
    /// The speed in knots (`mph / 1.151`, rounded).
    pub open spec fn spec_knots(self) -> i16 {
        match self {
            Velocity::Knots(k) => k,
            Velocity::MilesPerHour(mph) => rounded_i16(mph * 1000, 1151),
        }
    }

    /// The speed in miles per hour (`knots * 1.151`, rounded).
    pub open spec fn spec_miles_per_hour(self) -> i16 {
        match self {
            Velocity::Knots(k) => rounded_i16(k * 1151, 1000),
            Velocity::MilesPerHour(mph) => mph,
        }
    }

    /// The speed in knots.
    pub fn knots(self) -> (r: i16)
        ensures
            r == self.spec_knots(),
    {
        match self {
            Velocity::Knots(k) => k,
            Velocity::MilesPerHour(mph) => round_ratio(mph as i64 * 1000, 1151),
        }
    }

    /// The speed in miles per hour.
    pub fn miles_per_hour(self) -> (r: i16)
        ensures
            r == self.spec_miles_per_hour(),
    {
        match self {
            Velocity::Knots(k) => round_ratio(k as i64 * 1151, 1000),
            Velocity::MilesPerHour(mph) => mph,
        }
    }
}

/// A temperature, on the scale it was given in.
#[derive(Clone, Copy, Debug, PartialEq, Eq, Structural)]
pub enum Temperature {
    Fahrenheit(i16),
    Celsius(i16),
}

impl Temperature {
    /// Degrees Celsius (`(f - 32) * 5 / 9`, rounded).
    pub open spec fn spec_celsius(self) -> i16 {
        match self {
            Temperature::Celsius(c) => c,
            Temperature::Fahrenheit(f) => rounded_i16((f - 32) * 5, 9),
        }
    }

    /// Degrees Fahrenheit (`c * 9 / 5 + 32`, rounded).
    pub open spec fn spec_fahrenheit(self) -> i16 {
        match self {
            Temperature::Celsius(c) => rounded_i16(c * 9 + 160, 5),
            Temperature::Fahrenheit(f) => f,
        }
    }

    /// The temperature in degrees Celsius.
    pub fn celsius(self) -> (r: i16)
        ensures
            r == self.spec_celsius(),
    {
        match self {
            Temperature::Celsius(c) => c,
            Temperature::Fahrenheit(f) => round_ratio((f as i64 - 32) * 5, 9),
        }
    }

    /// The temperature in degrees Fahrenheit.
    pub fn fahrenheit(self) -> (r: i16)
        ensures
            r == self.spec_fahrenheit(),
    {
        match self {
            Temperature::Celsius(c) => round_ratio(c as i64 * 9 + 160, 5),
            Temperature::Fahrenheit(f) => f,
        }
    }

    /// The standard-day temperature at an elevation: 59 °F, less 3.5 °F
    /// per 1000 ft, rounded.
    pub open spec fn spec_standard_temperature(elevation_ft: int) -> Temperature {
        Temperature::Fahrenheit(rounded_i16(118000 - 7 * elevation_ft, 2000))
    }

    /// The standard-day temperature at `elevation_ft`, in Fahrenheit.
    pub fn standard_temperature(elevation_ft: i16) -> (r: Temperature)
        ensures
            r == Temperature::spec_standard_temperature(elevation_ft as int),
    {
        Temperature::Fahrenheit(round_ratio(118000 - 7 * elevation_ft as i64, 2000))
    }
}

/// The standard sea-level altimeter setting, in hundredths of an inch of
/// mercury.
pub const STANDARD_ALTIMETER: i16 = 2992;

/// Atmospheric pressure, either as an altimeter setting (hundredths of an
/// inch of mercury) or directly as a pressure altitude (feet).
#[derive(Clone, Copy, Debug, PartialEq, Eq, Structural)]
pub enum Pressure {
    Altimeter(i16),
    Altitude(i16),
}

impl Pressure {
    /// The altimeter setting, in hundredths of an inch of mercury: a
    /// pressure altitude `p` at elevation `e` reads `29.92 - (p - e) / 1000`.
    pub open spec fn spec_altimeter(self, elevation_ft: int) -> i16 {
        match self {
            Pressure::Altimeter(p) => p,
            Pressure::Altitude(p) => rounded_i16(
                STANDARD_ALTIMETER * 10 - p + elevation_ft,
                10,
            ),
        }
    }

    /// The pressure altitude, in feet: `elevation + (29.92 - setting) * 1000`.
    pub open spec fn spec_altitude(self, elevation_ft: int) -> i16 {
        match self {
            Pressure::Altimeter(p) => rounded_i16(
                elevation_ft + (STANDARD_ALTIMETER - p) * 10,
                1,
            ),
            Pressure::Altitude(p) => p,
        }
    }

    /// The altimeter setting at `elevation_ft`, in hundredths of an inch
    /// of mercury.
    pub fn altimeter(self, elevation_ft: i16) -> (r: i16)
        ensures
            r == self.spec_altimeter(elevation_ft as int),
    {
        match self {
            Pressure::Altimeter(p) => p,
            Pressure::Altitude(p) => round_ratio(
                STANDARD_ALTIMETER as i64 * 10 - p as i64 + elevation_ft as i64,
                10,
            ),
        }
    }

    /// The pressure altitude at `elevation_ft`, in feet.
    pub fn altitude(self, elevation_ft: i16) -> (r: i16)
        ensures
            r == self.spec_altitude(elevation_ft as int),
    {
        match self {
            Pressure::Altimeter(p) => round_ratio(
                elevation_ft as i64 + (STANDARD_ALTIMETER as i64 - p as i64) * 10,
                1,
            ),
            Pressure::Altitude(p) => p,
        }
    }
}

/// `x` increased by the fraction `f` (`x * (1 + f)`), rounded.
pub open spec fn increased_spec(x: int, f: Fraction) -> i16 {
    rounded_i16(x * (f.den + f.num), f.den as int)
}

/// `x` decreased by the fraction `f` (`x * (1 - f)`), rounded.
pub open spec fn decreased_spec(x: int, f: Fraction) -> i16 {
    rounded_i16(x * (f.den - f.num), f.den as int)
}

/// `x * (1 + f)`, rounded.
pub fn scale_up(x: i16, f: Fraction) -> (r: i16)
    requires
        f.wf(),
    ensures
        r == increased_spec(x as int, f),
{
    proof {
        assert(-0x8000 * 0x2_0000_0000 <= x * (f.den + f.num) <= 0x8000 * 0x2_0000_0000)
            by (nonlinear_arith)
            requires
                -0x8000 <= x <= 0x8000,
                -0x2_0000_0000 <= f.den + f.num <= 0x2_0000_0000,
        ;
    }
    round_ratio(x as i64 * (f.den + f.num), f.den)
}

/// `x * (1 - f)`, rounded.
pub fn scale_down(x: i16, f: Fraction) -> (r: i16)
    requires
        f.wf(),
    ensures
        r == decreased_spec(x as int, f),
{
    proof {
        assert(-0x8000 * 0x2_0000_0000 <= x * (f.den - f.num) <= 0x8000 * 0x2_0000_0000)
            by (nonlinear_arith)
            requires
                -0x8000 <= x <= 0x8000,
                -0x2_0000_0000 <= f.den - f.num <= 0x2_0000_0000,
        ;
    }
    round_ratio(x as i64 * (f.den - f.num), f.den)
}

/// `x * f`, rounded.
pub open spec fn scaled_spec(x: int, f: Fraction) -> i16 {
    rounded_i16(x * f.num, f.den as int)
}

/// `x * f`, rounded to the nearest integer, ties away from zero.
pub fn scale(x: i16, f: Fraction) -> (r: i16)
    requires
        f.wf(),
    ensures
        r == scaled_spec(x as int, f),
{
    proof {
        assert(-0x8000 * 0x1_0000_0000 <= x * f.num <= 0x8000 * 0x1_0000_0000) by (nonlinear_arith)
            requires
                -0x8000 <= x <= 0x8000,
                -0x1_0000_0000 <= f.num <= 0x1_0000_0000,
        ;
    }
    round_ratio(x as i64 * f.num, f.den)
}

} // verus!
