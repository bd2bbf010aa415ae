//! The values a calculation request carries, with the defaults that fill
//! in what it leaves out, and the values the pages show.

use vstd::prelude::*;
use crate::math::{Pressure, STANDARD_ALTIMETER, Temperature, Velocity};

verus! {

/// An optional flag, false when absent.
pub fn resolve_boolean(opt: Option<bool>) -> (r: bool)
    ensures
        r == (opt == Some(true)),
{
    match opt {
        Some(value) => value,
        None => false,
    }
}

/// A calculation request as it arrives: every temperature on either
/// scale, optionally; the altimeter setting in hundredths of an inch of
/// mercury.
#[derive(Clone, Copy, Debug, PartialEq, Eq, Structural)]
pub struct QueryPerformanceParameters {
    pub is_grass: Option<bool>,
    pub elevation_ft: i16,
    pub headwind_kts: i16,
    pub pressure_in_hg: Option<i16>,
    pub temperature_f: Option<i16>,
    pub temperature_c: Option<i16>,
    pub standard_temperature_f: Option<i16>,
    pub standard_temperature_c: Option<i16>,
    pub aircraft_weight_lbs: Option<i16>,
}

/// The inputs of a calculation, with the defaults applied.
#[derive(Clone, Copy, Debug, PartialEq, Eq, Structural)]
pub struct PerformanceParameters {
    pub is_grass: bool,
    pub elevation_ft: i16,
    pub pressure: Option<Pressure>,
    pub headwind: Velocity,
    pub temperature: Temperature,
    pub standard_temperature: Temperature,
    pub aircraft_weight_lbs: Option<i16>,
}

/// The temperature a request gives: Celsius when given, else Fahrenheit,
/// else the sea-level standard of 59 °F.
pub open spec fn temperature_or_standard(c: Option<i16>, f: Option<i16>) -> Temperature {
    match c {
        Some(c) => Temperature::Celsius(c),
        None => match f {
            Some(f) => Temperature::Fahrenheit(f),
            None => Temperature::Fahrenheit(59),
        },
    }
}

impl QueryPerformanceParameters {
    fn convert_to_temperature_or_get_standard(c: Option<i16>, f: Option<i16>) -> (r: Temperature)
        ensures
            r == temperature_or_standard(c, f),
    {
        match c {
            Some(c) => Temperature::Celsius(c),
            None => match f {
                Some(f) => Temperature::Fahrenheit(f),
                None => Temperature::Fahrenheit(59),
            },
        }
    }

    /// The request's inputs with defaults applied: not grass, and the
    /// sea-level standard temperature where a temperature is missing.
    pub fn to_performance_parameters(&self) -> (r: PerformanceParameters)
        ensures
            r == (PerformanceParameters {
                is_grass: self.is_grass == Some(true),
                elevation_ft: self.elevation_ft,
                pressure: match self.pressure_in_hg {
                    Some(p) => Some(Pressure::Altimeter(p)),
                    None => None,
                },
                headwind: Velocity::Knots(self.headwind_kts),
                temperature: temperature_or_standard(self.temperature_c, self.temperature_f),
                standard_temperature: temperature_or_standard(
                    self.standard_temperature_c,
                    self.standard_temperature_f,
                ),
                aircraft_weight_lbs: self.aircraft_weight_lbs,
            }),
    {
        PerformanceParameters {
            is_grass: resolve_boolean(self.is_grass),
            elevation_ft: self.elevation_ft,
            pressure: match self.pressure_in_hg {
                Some(in_hg) => Some(Pressure::Altimeter(in_hg)),
                None => None,
            },
            headwind: Velocity::Knots(self.headwind_kts),
            temperature: Self::convert_to_temperature_or_get_standard(
                self.temperature_c,
                self.temperature_f,
            ),
            standard_temperature: Self::convert_to_temperature_or_get_standard(
                self.standard_temperature_c,
                self.standard_temperature_f,
            ),
            aircraft_weight_lbs: self.aircraft_weight_lbs,
        }
    }
}

impl PerformanceParameters {
    /// The pressure of the request, or the standard altimeter setting
    /// when it gives none (the pressure altitude is then the elevation).
    pub fn pressure_or_standard(&self) -> (r: Pressure)
        ensures
            r == (match self.pressure {
                Some(p) => p,
                None => Pressure::Altimeter(STANDARD_ALTIMETER),
            }),
    {
        match self.pressure {
            Some(p) => p,
            None => Pressure::Altimeter(STANDARD_ALTIMETER),
        }
    }
}

/// The weather reports an airport page may be given.
#[derive(Debug)]
pub struct AirportParameters {
    pub actual_metar: Option<String>,
    pub custom_metar: Option<String>,
}

/// The report to use: the actual one when it is not empty, else the
/// custom one, else nothing.
pub open spec fn selected_metar(actual: Option<String>, custom: Option<String>) -> Seq<char> {
    match actual {
        Some(a) if a@.len() > 0 => a@,
        _ => match custom {
            Some(c) => c@,
            None => Seq::empty(),
        },
    }
}

impl AirportParameters {
    /// The weather report the page is computed from; empty when none was
    /// given.
    pub fn select_metar(&self) -> (r: String)
        ensures
            r@ == selected_metar(self.actual_metar, self.custom_metar),
    {
        match &self.actual_metar {
            Some(value) => {
                if !value.as_str().is_empty() {
                    return value.clone();
                }
            },
            None => {},
        }
        match &self.custom_metar {
            Some(value) => value.clone(),
            None => String::new(),
        }
    }
}

/// The airport and flight a user selects.
#[derive(Debug)]
pub struct SelectAirportConfig {
    pub aircraft_type: String,
    pub identifier: String,
    pub is_arrival: Option<bool>,
}

impl SelectAirportConfig {
    /// Whether the selection is for an arrival (else a departure).
    pub fn is_arrival_mode(&self) -> (r: bool)
        ensures
            r == (self.is_arrival == Some(true)),
    {
        resolve_boolean(self.is_arrival)
    }
}

/// A runway calculation configured from a weather report and a runway
/// heading.
#[derive(Debug)]
pub struct RunwayConfig {
    pub aircraft_type: String,
    pub is_take_off: Option<bool>,
    pub is_grass: Option<bool>,
    pub metar: String,
    pub heading: i16,
    pub elevation_ft: i16,
    pub aircraft_weight_lbs: Option<i16>,
}

/// What the runway page shows of the conditions.
#[derive(Debug)]
pub struct RunwayTemplate {
    pub mode: String,
    pub surface: String,
    pub is_grass: bool,
    pub elevation_ft: i16,
    pub headwind_kts: i16,
    pub standard_temperature_f: i16,
    pub temperature_f: i16,
    pub temperature_diff_from_standard: i32,
}

impl RunwayTemplate {
    /// The conditions on a runway: the standard temperature at its
    /// elevation and the difference of the actual temperature from it.
    pub fn new(
        is_take_off: bool,
        is_grass: bool,
        elevation_ft: i16,
        headwind_kts: i16,
        temperature_f: i16,
    ) -> (r: Self)
        ensures
            r.mode@ == (if is_take_off {
                "Take Off"@
            } else {
                "Landing"@
            }),
            r.surface@ == (if is_grass {
                "grass"@
            } else {
                "pavement"@
            }),
            r.is_grass == is_grass,
            r.elevation_ft == elevation_ft,
            r.headwind_kts == headwind_kts,
            r.standard_temperature_f == Temperature::spec_standard_temperature(
                elevation_ft as int,
            ).spec_fahrenheit(),
            r.temperature_f == temperature_f,
            r.temperature_diff_from_standard == temperature_f - r.standard_temperature_f,
    {
        let standard_temperature_f = Temperature::standard_temperature(elevation_ft).fahrenheit();
        RunwayTemplate {
            mode: if is_take_off {
                "Take Off".to_owned()
            } else {
                "Landing".to_owned()
            },
            surface: if is_grass {
                "grass".to_owned()
            } else {
                "pavement".to_owned()
            },
            is_grass,
            elevation_ft,
            headwind_kts,
            standard_temperature_f,
            temperature_f,
            temperature_diff_from_standard: temperature_f as i32 - standard_temperature_f as i32,
        }
    }
}

/// A page: its title and its rendered body.
#[derive(Debug)]
pub struct ToPageTemplate {
    pub page_title: String,
    pub raw_html: String,
}

/// An error page's message.
#[derive(Debug)]
pub struct ErrorTemplate {
    pub message: String,
}

impl ErrorTemplate {
    /// An error page showing `message`.
    pub fn new(message: String) -> (r: Self)
        ensures
            r.message == message,
    {
        ErrorTemplate { message }
    }
}

} // verus!
