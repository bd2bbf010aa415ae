use aircraft_performance::math::{Pressure, Temperature, Velocity};
use aircraft_performance::parameters::{
    resolve_boolean, AirportParameters, ErrorTemplate, PerformanceParameters,
    QueryPerformanceParameters, RunwayTemplate, SelectAirportConfig,
};

fn query() -> QueryPerformanceParameters {
    QueryPerformanceParameters {
        is_grass: None,
        elevation_ft: 1200,
        headwind_kts: 8,
        pressure_in_hg: None,
        temperature_f: None,
        temperature_c: None,
        standard_temperature_f: None,
        standard_temperature_c: None,
        aircraft_weight_lbs: None,
    }
}

#[test]
fn optional_flags_default_to_false() {
    assert!(!resolve_boolean(None));
    assert!(!resolve_boolean(Some(false)));
    assert!(resolve_boolean(Some(true)));
}

#[test]
fn query_defaults() {
    let p = query().to_performance_parameters();
    assert!(!p.is_grass);
    assert_eq!(p.headwind, Velocity::Knots(8));
    assert_eq!(p.temperature, Temperature::Fahrenheit(59));
    assert_eq!(p.standard_temperature, Temperature::Fahrenheit(59));
    assert_eq!(p.pressure, None);
    assert_eq!(p.pressure_or_standard(), Pressure::Altimeter(2992));
}

#[test]
fn query_prefers_celsius() {
    let mut q = query();
    q.temperature_c = Some(20);
    q.temperature_f = Some(50);
    q.standard_temperature_f = Some(55);
    q.is_grass = Some(true);
    q.pressure_in_hg = Some(3001);
    q.aircraft_weight_lbs = Some(2000);
    let p: PerformanceParameters = q.to_performance_parameters();
    assert!(p.is_grass);
    assert_eq!(p.temperature, Temperature::Celsius(20));
    assert_eq!(p.standard_temperature, Temperature::Fahrenheit(55));
    assert_eq!(p.pressure, Some(Pressure::Altimeter(3001)));
    assert_eq!(p.pressure_or_standard(), Pressure::Altimeter(3001));
    assert_eq!(p.aircraft_weight_lbs, Some(2000));
}

#[test]
fn metar_selection() {
    let p = AirportParameters { actual_metar: Some("KABC 1".to_string()), custom_metar: Some("X".to_string()) };
    assert_eq!(p.select_metar(), "KABC 1");
    let p = AirportParameters { actual_metar: Some(String::new()), custom_metar: Some("X".to_string()) };
    assert_eq!(p.select_metar(), "X");
    let p = AirportParameters { actual_metar: None, custom_metar: None };
    assert_eq!(p.select_metar(), "");
}

#[test]
fn airport_selection_mode() {
    let mut c = SelectAirportConfig { aircraft_type: "cessna150j".to_string(), identifier: "KABC".to_string(), is_arrival: None };
    assert!(!c.is_arrival_mode());
    c.is_arrival = Some(true);
    assert!(c.is_arrival_mode());
}

#[test]
fn runway_summary() {
    let t = RunwayTemplate::new(true, false, 2000, 7, 70);
    assert_eq!(t.mode, "Take Off");
    assert_eq!(t.surface, "pavement");
    assert_eq!(t.standard_temperature_f, 52);
    assert_eq!(t.temperature_diff_from_standard, 18);
    let t = RunwayTemplate::new(false, true, 0, 0, 50);
    assert_eq!(t.mode, "Landing");
    assert_eq!(t.surface, "grass");
    assert_eq!(t.temperature_diff_from_standard, -9);
}

#[test]
fn error_page_message() {
    assert_eq!(ErrorTemplate::new("KQQQ not found.".to_string()).message, "KQQQ not found.");
}
