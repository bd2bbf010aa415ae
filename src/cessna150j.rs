//! Performance model for the light trainer: a two-axis chart (headwind by
//! standard-atmosphere altitude) with continuous, formula-based
//! corrections for temperature, headwind (landing) and grass.

use vstd::prelude::*;
use crate::distance::{Distance, PerformanceError, PerformanceRow};
use crate::math::{
    Fraction, Velocity, fraction, fraction_spec, lerp_distance, lerp_distance_spec, round_ratio,
    rounded_i16, increased_spec, decreased_spec, scale_up, scale_down,
};

verus! {

/// The standard-atmosphere reference points of the chart.
#[derive(Clone, Copy, Debug, PartialEq, Eq, Structural)]
pub enum Atmosphere {
    Alt0_59F,
    Alt2500_50F,
    Alt5000_41F,
    Alt7500_32F,
}

/// A chart reference point: an altitude (ft), its standard temperature
/// (°F), and the chart entry it indexes.
#[derive(Clone, Copy, Debug, PartialEq, Eq, Structural)]
pub struct AtmosphereDef<T> {
    pub altitude: i16,
    pub temperature: i16,
    pub indexer: T,
}

/// The two reference points that bound an altitude; equal when the
/// altitude is itself a reference point.
#[derive(Clone, Copy, Debug, PartialEq, Eq, Structural)]
pub struct AtmosphereBounds<T> {
    pub lower: AtmosphereDef<T>,
    pub upper: AtmosphereDef<T>,
}

/// The two chart wind speeds that bound a headwind.
#[derive(Clone, Copy, Debug, PartialEq, Eq, Structural)]
pub struct Headwinds {
    pub lower_value: Velocity,
    pub upper_value: Velocity,
}

impl Atmosphere {
    /// The reference point this chart entry stands for.
    pub open spec fn spec_def(self) -> AtmosphereDef<Atmosphere> {
        match self {
            Atmosphere::Alt0_59F => AtmosphereDef { altitude: 0, temperature: 59, indexer: self },
            Atmosphere::Alt2500_50F => AtmosphereDef {
                altitude: 2500,
                temperature: 50,
                indexer: self,
            },
            Atmosphere::Alt5000_41F => AtmosphereDef {
                altitude: 5000,
                temperature: 41,
                indexer: self,
            },
            Atmosphere::Alt7500_32F => AtmosphereDef {
                altitude: 7500,
                temperature: 32,
                indexer: self,
            },
        }
    }

    /// The reference point this chart entry stands for.
    pub fn def(self) -> (r: AtmosphereDef<Atmosphere>)
        ensures
            r == self.spec_def(),
    {
        match self {
            Atmosphere::Alt0_59F => AtmosphereDef { altitude: 0, temperature: 59, indexer: self },
            Atmosphere::Alt2500_50F => AtmosphereDef {
                altitude: 2500,
                temperature: 50,
                indexer: self,
            },
            Atmosphere::Alt5000_41F => AtmosphereDef {
                altitude: 5000,
                temperature: 41,
                indexer: self,
            },
            Atmosphere::Alt7500_32F => AtmosphereDef {
                altitude: 7500,
                temperature: 32,
                indexer: self,
            },
        }
    }
}

/// The bounds made of two chart entries.
pub open spec fn bounds_of(lower: Atmosphere, upper: Atmosphere) -> AtmosphereBounds<Atmosphere> {
    AtmosphereBounds { lower: lower.spec_def(), upper: upper.spec_def() }
}

/// The reference points that bound `altitude_ft`; out of range outside
/// 0 ft to 7500 ft.
pub open spec fn atmosphere_bounds_spec(altitude_ft: int) -> Result<
    AtmosphereBounds<Atmosphere>,
    PerformanceError,
> {
    if altitude_ft < 0 || altitude_ft > 7500 {
        Err(PerformanceError::PerformanceNotDefined)
    } else if altitude_ft == 7500 {
        Ok(bounds_of(Atmosphere::Alt7500_32F, Atmosphere::Alt7500_32F))
    } else if altitude_ft > 5000 {
        Ok(bounds_of(Atmosphere::Alt5000_41F, Atmosphere::Alt7500_32F))
    } else if altitude_ft == 5000 {
        Ok(bounds_of(Atmosphere::Alt5000_41F, Atmosphere::Alt5000_41F))
    } else if altitude_ft > 2500 {
        Ok(bounds_of(Atmosphere::Alt2500_50F, Atmosphere::Alt5000_41F))
    } else if altitude_ft == 2500 {
        Ok(bounds_of(Atmosphere::Alt2500_50F, Atmosphere::Alt2500_50F))
    } else if altitude_ft > 0 {
        Ok(bounds_of(Atmosphere::Alt0_59F, Atmosphere::Alt2500_50F))
    } else {
        Ok(bounds_of(Atmosphere::Alt0_59F, Atmosphere::Alt0_59F))
    }
}

/// The chart wind speeds that bound `headwind_kts`: the multiple of 10
/// at or below it and the next one, collapsing to 20 kt at the top of the
/// chart; out of range outside 0 kt to 20 kt (a tailwind included).
pub open spec fn headwinds_spec(headwind_kts: int) -> Result<Headwinds, PerformanceError> {
    if headwind_kts < 0 || headwind_kts > 20 {
        Err(PerformanceError::PerformanceNotDefined)
    } else if headwind_kts == 20 {
        Ok(Headwinds { lower_value: Velocity::Knots(20), upper_value: Velocity::Knots(20) })
    } else {
        Ok(
            Headwinds {
                lower_value: Velocity::Knots((headwind_kts / 10 * 10) as i16),
                upper_value: Velocity::Knots((headwind_kts / 10 * 10 + 10) as i16),
            },
        )
    }
}

fn find_headwind_performance_keys(headwind_kts: i16) -> (r: Result<Headwinds, PerformanceError>)
    ensures
        r == headwinds_spec(headwind_kts as int),
{
    if headwind_kts < 0 || headwind_kts > 20 {
        Err(PerformanceError::PerformanceNotDefined)
    } else if headwind_kts == 20 {
        Ok(Headwinds { lower_value: Velocity::Knots(20), upper_value: Velocity::Knots(20) })
    } else {
        let lower_value = (headwind_kts / 10) * 10;
        Ok(
            Headwinds {
                lower_value: Velocity::Knots(lower_value),
                upper_value: Velocity::Knots(lower_value + 10),
            },
        )
    }
}

/// The reference points that bound `altitude_ft`. An altitude on a
/// reference point is bounded by that point alone; outside 0 ft to
/// 7500 ft the chart does not apply.
pub fn find_atmosphere(altitude_ft: i16) -> (r: Result<AtmosphereBounds<Atmosphere>, PerformanceError>)
    ensures
        r == atmosphere_bounds_spec(altitude_ft as int),
        is_reference_altitude(altitude_ft as int) ==> {
            &&& r is Ok
            &&& r->Ok_0.lower == r->Ok_0.upper
            &&& r->Ok_0.lower.altitude == altitude_ft
        },
{
    let (lower, upper) = if altitude_ft < 0 || altitude_ft > 7500 {
        return Err(PerformanceError::PerformanceNotDefined);
    } else if altitude_ft == 7500 {
        (Atmosphere::Alt7500_32F, Atmosphere::Alt7500_32F)
    } else if altitude_ft > 5000 {
        (Atmosphere::Alt5000_41F, Atmosphere::Alt7500_32F)
    } else if altitude_ft == 5000 {
        (Atmosphere::Alt5000_41F, Atmosphere::Alt5000_41F)
    } else if altitude_ft > 2500 {
        (Atmosphere::Alt2500_50F, Atmosphere::Alt5000_41F)
    } else if altitude_ft == 2500 {
        (Atmosphere::Alt2500_50F, Atmosphere::Alt2500_50F)
    } else if altitude_ft > 0 {
        (Atmosphere::Alt0_59F, Atmosphere::Alt2500_50F)
    } else {
        (Atmosphere::Alt0_59F, Atmosphere::Alt0_59F)
    };
    Ok(AtmosphereBounds { lower: lower.def(), upper: upper.def() })
}

/// Whether `altitude_ft` is one of the chart's reference altitudes.
pub open spec fn is_reference_altitude(altitude_ft: int) -> bool {
    altitude_ft == 0 || altitude_ft == 2500 || altitude_ft == 5000 || altitude_ft == 7500
}

/// An altitude on a reference point is bracketed by that point alone, and
/// its tween between the two bounds is exactly zero.
pub proof fn lemma_reference_altitude_collapses(altitude_ft: i16)
    requires
        is_reference_altitude(altitude_ft as int),
    ensures
        atmosphere_bounds_spec(altitude_ft as int) is Ok,
        ({
            let b = atmosphere_bounds_spec(altitude_ft as int)->Ok_0;
            &&& b.lower == b.upper
            &&& b.lower.altitude == altitude_ft
            &&& fraction_spec(altitude_ft as int, b.lower.altitude as int, b.upper.altitude as int)
                == Fraction::spec_zero()
        }),
{
}

/// The take-off chart: ground run and 50 ft obstacle distance at a wind
/// speed and reference point; wind speeds other than 0, 10 and 20 kt are
/// not on the chart.
pub open spec fn take_off_chart(headwind_kts: int, atmosphere: Atmosphere) -> Option<Distance> {
    if headwind_kts == 0 {
        Some(
            match atmosphere {
                Atmosphere::Alt0_59F => Distance(735, 1385),
                Atmosphere::Alt2500_50F => Distance(910, 1660),
                Atmosphere::Alt5000_41F => Distance(1115, 1985),
                Atmosphere::Alt7500_32F => Distance(1360, 2440),
            },
        )
    } else if headwind_kts == 10 {
        Some(
            match atmosphere {
                Atmosphere::Alt0_59F => Distance(500, 1035),
                Atmosphere::Alt2500_50F => Distance(630, 1250),
                Atmosphere::Alt5000_41F => Distance(780, 1510),
                Atmosphere::Alt7500_32F => Distance(970, 1875),
            },
        )
    } else if headwind_kts == 20 {
        Some(
            match atmosphere {
                Atmosphere::Alt0_59F => Distance(305, 730),
                Atmosphere::Alt2500_50F => Distance(395, 890),
                Atmosphere::Alt5000_41F => Distance(505, 1090),
                Atmosphere::Alt7500_32F => Distance(640, 1375),
            },
        )
    } else {
        None
    }
}

/// The take-off chart entry for a wind given in knots.
pub open spec fn take_off_entry(velocity: Velocity, atmosphere: Atmosphere) -> Option<Distance> {
    match velocity {
        Velocity::Knots(k) => take_off_chart(k as int, atmosphere),
        Velocity::MilesPerHour(_) => None,
    }
}

/// The landing chart: ground roll and 50 ft obstacle distance at a
/// reference point.
pub open spec fn landing_chart(atmosphere: Atmosphere) -> Distance {
    match atmosphere {
        Atmosphere::Alt0_59F => Distance(445, 1075),
        Atmosphere::Alt2500_50F => Distance(470, 1135),
        Atmosphere::Alt5000_41F => Distance(495, 1195),
        Atmosphere::Alt7500_32F => Distance(520, 1255),
    }
}

fn get_take_off_distance(velocity: &Velocity, atmosphere: &Atmosphere) -> (r: Result<
    Distance,
    PerformanceError,
>)
    ensures
        r == (match take_off_entry(*velocity, *atmosphere) {
            Some(d) => Ok(d),
            None => Err(PerformanceError::PerformanceNotDefined),
        }),
{
    let knots = match velocity {
        Velocity::Knots(k) => *k,
        Velocity::MilesPerHour(_) => {
            return Err(PerformanceError::PerformanceNotDefined);
        },
    };
    if knots == 0 {
        Ok(
            match atmosphere {
                Atmosphere::Alt0_59F => Distance(735, 1385),
                Atmosphere::Alt2500_50F => Distance(910, 1660),
                Atmosphere::Alt5000_41F => Distance(1115, 1985),
                Atmosphere::Alt7500_32F => Distance(1360, 2440),
            },
        )
    } else if knots == 10 {
        Ok(
            match atmosphere {
                Atmosphere::Alt0_59F => Distance(500, 1035),
                Atmosphere::Alt2500_50F => Distance(630, 1250),
                Atmosphere::Alt5000_41F => Distance(780, 1510),
                Atmosphere::Alt7500_32F => Distance(970, 1875),
            },
        )
    } else if knots == 20 {
        Ok(
            match atmosphere {
                Atmosphere::Alt0_59F => Distance(305, 730),
                Atmosphere::Alt2500_50F => Distance(395, 890),
                Atmosphere::Alt5000_41F => Distance(505, 1090),
                Atmosphere::Alt7500_32F => Distance(640, 1375),
            },
        )
    } else {
        Err(PerformanceError::PerformanceNotDefined)
    }
}

fn get_landing_distance(atmosphere: &Atmosphere) -> (r: Distance)
    ensures
        r == landing_chart(*atmosphere),
{
    match atmosphere {
        Atmosphere::Alt0_59F => Distance(445, 1075),
        Atmosphere::Alt2500_50F => Distance(470, 1135),
        Atmosphere::Alt5000_41F => Distance(495, 1195),
        Atmosphere::Alt7500_32F => Distance(520, 1255),
    }
}

/// Temperature correction: 10 % for each `interval_f` °F above standard,
/// never negative.
pub open spec fn temperature_correction_spec(diff_f: int, interval_f: int) -> Fraction {
    Fraction {
        num: (if diff_f > 0 {
            diff_f
        } else {
            0
        }) as i64,
        den: (10 * interval_f) as i64,
    }
}

/// The grass correction factor for take-off: 7 % of the obstacle distance.
pub open spec fn take_off_grass_factor() -> Fraction {
    Fraction { num: 7, den: 100 }
}

/// The grass correction factor for landing: 20 % of the obstacle distance.
pub open spec fn landing_grass_factor() -> Fraction {
    Fraction { num: 20, den: 100 }
}

/// The correction chain after the temperature percentage is known: the
/// distance increased by it, then the grass offset (a share of the
/// corrected obstacle distance) added to both components.
pub open spec fn corrections_spec(distance: Distance, percentage: Fraction, grass: Fraction) -> Corrections {
    let t = Distance(increased_spec(distance.0 as int, percentage), increased_spec(distance.1 as int, percentage));
    let offset = rounded_i16(t.1 * grass.num, grass.den as int);
    Corrections {
        standard_temperature_correction_percentage: percentage,
        distance_corrected_for_temperature: t,
        grass_offset: offset,
        distance_corrected_for_grass: Distance(
            rounded_i16(t.0 + offset, 1),
            rounded_i16(t.1 + offset, 1),
        ),
    }
}

/// The corrections applied to an interpolated distance.
#[derive(Clone, Copy, Debug, PartialEq, Eq, Structural)]
pub struct Corrections {
    pub standard_temperature_correction_percentage: Fraction,
    pub distance_corrected_for_temperature: Distance,
    pub grass_offset: i16,
    pub distance_corrected_for_grass: Distance,
}

/// A take-off calculation: the rows at the lower chart wind, at the
/// actual wind and at the upper chart wind, the distance at the actual
/// wind and altitude, and its corrections.
#[derive(Clone, Copy, Debug, PartialEq, Eq)]
pub struct TakeOff {
    pub takeoff_distances: [PerformanceRow; 3],
    pub distance_at_elevation: Distance,
    pub correction: Corrections,
}

/// A landing calculation: the row across the altitude bracket, the
/// distance at the altitude, the headwind correction and the corrections
/// that follow it.
#[derive(Clone, Copy, Debug, PartialEq, Eq, Structural)]
pub struct Landing {
    pub landing_distances: PerformanceRow,
    pub distance_at_elevation: Distance,
    pub headwind_correction_percentage: Fraction,
    pub distance_with_headwind: Distance,
    pub correction: Corrections,
}

/// The resolved inputs of one calculation.
#[derive(Clone, Copy, Debug, PartialEq, Eq, Structural)]
pub struct Cessna150J {
    pub headwind_kts: i16,
    pub headwinds: Headwinds,
    pub headwind_tween_percentage: Fraction,
    pub elevation_ft: i16,
    pub atmosphere_bounds: AtmosphereBounds<Atmosphere>,
    pub altitude_tween_percentage: Fraction,
    pub temperature_f: i16,
    pub standard_temperature_f: i16,
    pub temperature_f_diff_from_standard: i32,
}

/// Whether a wind speed is one of the take-off chart's columns.
pub open spec fn is_chart_wind(v: Velocity) -> bool {
    v == Velocity::Knots(0) || v == Velocity::Knots(10) || v == Velocity::Knots(20)
}

/// The knots of a chart wind speed.
pub open spec fn chart_knots(v: Velocity) -> i16 {
    match v {
        Velocity::Knots(k) => k,
        Velocity::MilesPerHour(m) => m,
    }
}

impl Cessna150J {
    /// The chart lookups of a calculation are defined and its tweens are
    /// well formed.
    pub open spec fn wf(self) -> bool {
        &&& is_chart_wind(self.headwinds.lower_value)
        &&& is_chart_wind(self.headwinds.upper_value)
        &&& self.headwind_tween_percentage.wf()
        &&& self.altitude_tween_percentage.wf()
        &&& -0x1_0000 <= self.temperature_f_diff_from_standard <= 0x1_0000
        &&& 0 <= self.headwind_kts <= 20
    }

    /// The take-off chart entry at a chart wind and reference point.
    pub open spec fn take_off_corner(v: Velocity, a: AtmosphereDef<Atmosphere>) -> Distance {
        take_off_chart(chart_knots(v) as int, a.indexer)->Some_0
    }

    /// The altitude tween across the row of the lower chart wind.
    pub open spec fn spec_lower_row_middle(self) -> Distance {
        lerp_distance_spec(
            self.altitude_tween_percentage,
            Self::take_off_corner(self.headwinds.lower_value, self.atmosphere_bounds.lower),
            Self::take_off_corner(self.headwinds.lower_value, self.atmosphere_bounds.upper),
        )
    }

    /// The altitude tween across the row of the upper chart wind.
    pub open spec fn spec_upper_row_middle(self) -> Distance {
        lerp_distance_spec(
            self.altitude_tween_percentage,
            Self::take_off_corner(self.headwinds.upper_value, self.atmosphere_bounds.lower),
            Self::take_off_corner(self.headwinds.upper_value, self.atmosphere_bounds.upper),
        )
    }

    /// The headwind tween at the lower reference point.
    pub open spec fn spec_middle_row_lower(self) -> Distance {
        lerp_distance_spec(
            self.headwind_tween_percentage,
            Self::take_off_corner(self.headwinds.lower_value, self.atmosphere_bounds.lower),
            Self::take_off_corner(self.headwinds.upper_value, self.atmosphere_bounds.lower),
        )
    }

    /// The headwind tween at the upper reference point.
    pub open spec fn spec_middle_row_upper(self) -> Distance {
        lerp_distance_spec(
            self.headwind_tween_percentage,
            Self::take_off_corner(self.headwinds.lower_value, self.atmosphere_bounds.upper),
            Self::take_off_corner(self.headwinds.upper_value, self.atmosphere_bounds.upper),
        )
    }

    /// The take-off distance at the actual wind and altitude: the altitude
    /// is interpolated within each wind row first, then the two results
    /// across the wind.
    pub open spec fn spec_take_off_distance(self) -> Distance {
        lerp_distance_spec(
            self.headwind_tween_percentage,
            self.spec_lower_row_middle(),
            self.spec_upper_row_middle(),
        )
    }

    /// The landing distance at the actual altitude.
    pub open spec fn spec_landing_distance(self) -> Distance {
        lerp_distance_spec(
            self.altitude_tween_percentage,
            landing_chart(self.atmosphere_bounds.lower.indexer),
            landing_chart(self.atmosphere_bounds.upper.indexer),
        )
    }

    /// The landing headwind correction: 10 % for each 4 kt of headwind.
    pub open spec fn spec_headwind_correction(self) -> Fraction {
        Fraction { num: self.headwind_kts as i64, den: 40 }
    }

    /// The landing distance after the headwind correction.
    pub open spec fn spec_distance_with_headwind(self) -> Distance {
        let d = self.spec_landing_distance();
        let f = self.spec_headwind_correction();
        Distance(decreased_spec(d.0 as int, f), decreased_spec(d.1 as int, f))
    }

    /// What `new` computes from its inputs.
    pub open spec fn spec_new(
        headwind: Velocity,
        temperature_f: i16,
        elevation_ft: i16,
        standard_temperature_f: i16,
    ) -> Result<Cessna150J, PerformanceError> {
        let kts = headwind.spec_knots();
        match headwinds_spec(kts as int) {
            Err(e) => Err(e),
            Ok(h) => match atmosphere_bounds_spec(elevation_ft as int) {
                Err(e) => Err(e),
                Ok(b) => Ok(
                    Cessna150J {
                        headwind_kts: kts,
                        headwinds: h,
                        headwind_tween_percentage: fraction_spec(
                            kts as int,
                            chart_knots(h.lower_value) as int,
                            chart_knots(h.upper_value) as int,
                        ),
                        elevation_ft,
                        atmosphere_bounds: b,
                        altitude_tween_percentage: fraction_spec(
                            elevation_ft as int,
                            b.lower.altitude as int,
                            b.upper.altitude as int,
                        ),
                        temperature_f,
                        standard_temperature_f,
                        temperature_f_diff_from_standard: (temperature_f - standard_temperature_f) as i32,
                    },
                ),
            },
        }
    }

    /// Resolves the wind and altitude brackets of a calculation. Fails
    /// when the headwind is outside 0 kt to 20 kt (a tailwind included) or
    /// the elevation is outside 0 ft to 7500 ft.
    pub fn new(
        headwind: Velocity,
        temperature_f: i16,
        elevation_ft: i16,
        standard_temperature_f: i16,
    ) -> (r: Result<Cessna150J, PerformanceError>)
        ensures
            r == Self::spec_new(headwind, temperature_f, elevation_ft, standard_temperature_f),
            r is Ok <==> (0 <= headwind.spec_knots() <= 20 && 0 <= elevation_ft <= 7500),
            r is Ok ==> r->Ok_0.wf(),
            r is Ok && is_reference_altitude(elevation_ft as int) ==> {
                &&& r->Ok_0.atmosphere_bounds.lower == r->Ok_0.atmosphere_bounds.upper
                &&& r->Ok_0.altitude_tween_percentage == Fraction::spec_zero()
            },
    {
        let headwind_kts = headwind.knots();
        let headwinds = match find_headwind_performance_keys(headwind_kts) {
            Ok(h) => h,
            Err(e) => {
                return Err(e);
            },
        };
        let (lower_kts, upper_kts) = match (headwinds.lower_value, headwinds.upper_value) {
            (Velocity::Knots(l), Velocity::Knots(u)) => (l, u),
            _ => {
                return Err(PerformanceError::PerformanceNotDefined);
            },
        };
        let headwind_tween_percentage = fraction(
            headwind_kts as i32,
            lower_kts as i32,
            upper_kts as i32,
        );
        let atmosphere_bounds = match find_atmosphere(elevation_ft) {
            Ok(b) => b,
            Err(e) => {
                return Err(e);
            },
        };
        let altitude_tween_percentage = fraction(
            elevation_ft as i32,
            atmosphere_bounds.lower.altitude as i32,
            atmosphere_bounds.upper.altitude as i32,
        );
        Ok(
            Cessna150J {
                headwind_kts,
                headwinds,
                headwind_tween_percentage,
                elevation_ft,
                atmosphere_bounds,
                altitude_tween_percentage,
                temperature_f,
                standard_temperature_f,
                temperature_f_diff_from_standard: temperature_f as i32 - standard_temperature_f as i32,
            },
        )
    }

    fn calc_standard_temperature_correction_percentage(
        &self,
        standard_temperature_correction_interval: i64,
    ) -> (r: Fraction)
        requires
            self.wf(),
            0 < standard_temperature_correction_interval <= 100,
        ensures
            r == temperature_correction_spec(
                self.temperature_f_diff_from_standard as int,
                standard_temperature_correction_interval as int,
            ),
            r.wf(),
    {
        let diff = self.temperature_f_diff_from_standard as i64;
        Fraction {
            num: if diff > 0 {
                diff
            } else {
                0
            },
            den: 10 * standard_temperature_correction_interval,
        }
    }

    fn calc_distance_corrected_for_temperature(
        &self,
        distance: Distance,
        standard_temperature_correction_percentage: Fraction,
    ) -> (r: Distance)
        requires
            standard_temperature_correction_percentage.wf(),
        ensures
            r == Distance(
                increased_spec(distance.0 as int, standard_temperature_correction_percentage),
                increased_spec(distance.1 as int, standard_temperature_correction_percentage),
            ),
    {
        Distance(
            scale_up(distance.0, standard_temperature_correction_percentage),
            scale_up(distance.1, standard_temperature_correction_percentage),
        )
    }

    fn calc_distance_corrected_for_grass(&self, distance: Distance, scale_factor: Fraction) -> (r: (
        i16,
        Distance,
    ))
        requires
            scale_factor.wf(),
            0 <= scale_factor.num <= scale_factor.den,
        ensures
            r.0 == rounded_i16(distance.1 * scale_factor.num, scale_factor.den as int),
            r.1 == Distance(rounded_i16(distance.0 + r.0, 1), rounded_i16(distance.1 + r.0, 1)),
    {
        proof {
            assert(-0x8000 * 0x1_0000_0000 <= distance.1 * scale_factor.num <= 0x8000 * 0x1_0000_0000)
                by (nonlinear_arith)
                requires
                    -0x8000 <= distance.1 <= 0x8000,
                    0 <= scale_factor.num <= 0x1_0000_0000,
            ;
        }
        let grass_offset = round_ratio(distance.1 as i64 * scale_factor.num, scale_factor.den);
        (
            grass_offset,
            Distance(
                round_ratio(distance.0 as i64 + grass_offset as i64, 1),
                round_ratio(distance.1 as i64 + grass_offset as i64, 1),
            ),
        )
    }

    fn calc_corrections(&self, distance: Distance, interval_f: i64, grass: Fraction) -> (r:
        Corrections)
        requires
            self.wf(),
            0 < interval_f <= 100,
            grass.wf(),
            0 <= grass.num <= grass.den,
        ensures
            r == corrections_spec(
                distance,
                temperature_correction_spec(
                    self.temperature_f_diff_from_standard as int,
                    interval_f as int,
                ),
                grass,
            ),
    {
        let percentage = self.calc_standard_temperature_correction_percentage(interval_f);
        let corrected = self.calc_distance_corrected_for_temperature(distance, percentage);
        let (grass_offset, distance_corrected_for_grass) = self.calc_distance_corrected_for_grass(
            corrected,
            grass,
        );
        Corrections {
            standard_temperature_correction_percentage: percentage,
            distance_corrected_for_temperature: corrected,
            grass_offset,
            distance_corrected_for_grass,
        }
    }

    /// The take-off distance at the calculation's wind and altitude, and
    /// its temperature and grass corrections (35 °F intervals; 7 % of the
    /// obstacle distance on grass).
    pub fn calc_take_off(&self) -> (r: TakeOff)
        requires
            self.wf(),
        ensures
            r.distance_at_elevation == self.spec_take_off_distance(),
            r.takeoff_distances@ == seq![
                PerformanceRow {
                    label: Some(chart_knots(self.headwinds.lower_value)),
                    lower_bound: Self::take_off_corner(self.headwinds.lower_value, self.atmosphere_bounds.lower),
                    middle_value: self.spec_lower_row_middle(),
                    upper_bound: Self::take_off_corner(self.headwinds.lower_value, self.atmosphere_bounds.upper),
                },
                PerformanceRow {
                    label: Some(self.headwind_kts),
                    lower_bound: self.spec_middle_row_lower(),
                    middle_value: self.spec_take_off_distance(),
                    upper_bound: self.spec_middle_row_upper(),
                },
                PerformanceRow {
                    label: Some(chart_knots(self.headwinds.upper_value)),
                    lower_bound: Self::take_off_corner(self.headwinds.upper_value, self.atmosphere_bounds.lower),
                    middle_value: self.spec_upper_row_middle(),
                    upper_bound: Self::take_off_corner(self.headwinds.upper_value, self.atmosphere_bounds.upper),
                },
            ],
            r.correction == corrections_spec(
                self.spec_take_off_distance(),
                temperature_correction_spec(self.temperature_f_diff_from_standard as int, 35),
                take_off_grass_factor(),
            ),
    {
        let lower = self.headwinds.lower_value;
        let upper = self.headwinds.upper_value;
        let lower_atmosphere = self.atmosphere_bounds.lower.indexer;
        let upper_atmosphere = self.atmosphere_bounds.upper.indexer;
        let lower_row_lower_distance = chart_corner(&lower, &lower_atmosphere);
        let lower_row_upper_distance = chart_corner(&lower, &upper_atmosphere);
        let upper_row_lower_distance = chart_corner(&upper, &lower_atmosphere);
        let upper_row_upper_distance = chart_corner(&upper, &upper_atmosphere);

        let lower_row_middle_tween = lerp_distance(
            self.altitude_tween_percentage,
            lower_row_lower_distance,
            lower_row_upper_distance,
        );
        let upper_row_middle_tween = lerp_distance(
            self.altitude_tween_percentage,
            upper_row_lower_distance,
            upper_row_upper_distance,
        );
        let middle_row_lower_tween = lerp_distance(
            self.headwind_tween_percentage,
            lower_row_lower_distance,
            upper_row_lower_distance,
        );
        let middle_row_upper_tween = lerp_distance(
            self.headwind_tween_percentage,
            lower_row_upper_distance,
            upper_row_upper_distance,
        );
        let distance_at_elevation = lerp_distance(
            self.headwind_tween_percentage,
            lower_row_middle_tween,
            upper_row_middle_tween,
        );

        let takeoff_distances = [
            PerformanceRow::new_labeled(
                velocity_knots(&lower),
                lower_row_lower_distance,
                lower_row_middle_tween,
                lower_row_upper_distance,
            ),
            PerformanceRow::new_labeled(
                self.headwind_kts,
                middle_row_lower_tween,
                distance_at_elevation,
                middle_row_upper_tween,
            ),
            PerformanceRow::new_labeled(
                velocity_knots(&upper),
                upper_row_lower_distance,
                upper_row_middle_tween,
                upper_row_upper_distance,
            ),
        ];
        let correction = self.calc_corrections(
            distance_at_elevation,
            35,
            Fraction { num: 7, den: 100 },
        );
        let r = TakeOff { takeoff_distances, distance_at_elevation, correction };
        assert(r.takeoff_distances@ =~= seq![takeoff_distances[0], takeoff_distances[1], takeoff_distances[2]]);
        r
    }

    /// The landing distance at the calculation's altitude, reduced by 10 %
    /// for each 4 kt of headwind, then its temperature and grass
    /// corrections (60 °F intervals; 20 % of the obstacle distance on
    /// grass).
    pub fn calc_landing(&self) -> (r: Landing)
        requires
            self.wf(),
        ensures
            r.distance_at_elevation == self.spec_landing_distance(),
            r.landing_distances == (PerformanceRow {
                label: None,
                lower_bound: landing_chart(self.atmosphere_bounds.lower.indexer),
                middle_value: self.spec_landing_distance(),
                upper_bound: landing_chart(self.atmosphere_bounds.upper.indexer),
            }),
            r.headwind_correction_percentage == self.spec_headwind_correction(),
            r.distance_with_headwind == self.spec_distance_with_headwind(),
            r.correction == corrections_spec(
                self.spec_distance_with_headwind(),
                temperature_correction_spec(self.temperature_f_diff_from_standard as int, 60),
                landing_grass_factor(),
            ),
    {
        let lower_distance = get_landing_distance(&self.atmosphere_bounds.lower.indexer);
        let upper_distance = get_landing_distance(&self.atmosphere_bounds.upper.indexer);
        let distance_at_elevation = lerp_distance(
            self.altitude_tween_percentage,
            lower_distance,
            upper_distance,
        );
        let landing_distances = PerformanceRow::new_unlabeled(
            lower_distance,
            distance_at_elevation,
            upper_distance,
        );
        let headwind_correction_percentage = Fraction { num: self.headwind_kts as i64, den: 40 };
        let distance_with_headwind = Distance(
            scale_down(distance_at_elevation.0, headwind_correction_percentage),
            scale_down(distance_at_elevation.1, headwind_correction_percentage),
        );
        let correction = self.calc_corrections(
            distance_with_headwind,
            60,
            Fraction { num: 20, den: 100 },
        );
        Landing {
            landing_distances,
            distance_at_elevation,
            headwind_correction_percentage,
            distance_with_headwind,
            correction,
        }
    }
}

fn chart_corner(velocity: &Velocity, atmosphere: &Atmosphere) -> (r: Distance)
    requires
        is_chart_wind(*velocity),
    ensures
        r == take_off_chart(chart_knots(*velocity) as int, *atmosphere)->Some_0,
{
    match get_take_off_distance(velocity, atmosphere) {
        Ok(d) => d,
        Err(_) => Distance(0, 0),
    }
}

fn velocity_knots(velocity: &Velocity) -> (r: i16)
    ensures
        r == chart_knots(*velocity),
{
    match velocity {
        Velocity::Knots(k) => *k,
        Velocity::MilesPerHour(m) => *m,
    }
}

} // verus!
