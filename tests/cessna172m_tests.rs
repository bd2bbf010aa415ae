use aircraft_performance::cessna172m::{AircraftWeight, Cessna172M};
use aircraft_performance::distance::{Distance, PerformanceError, PerformanceRow};
use aircraft_performance::math::{Fraction, Pressure, Velocity};

fn at_altitude(headwind_kts: i16, pressure_altitude_ft: i16, temperature_c: i16) -> Cessna172M {
    Cessna172M::new(
        Velocity::Knots(headwind_kts),
        pressure_altitude_ft,
        Pressure::Altitude(pressure_altitude_ft),
        temperature_c,
    )
}

fn row(label: i16, lower: (i16, i16), middle: (i16, i16), upper: (i16, i16)) -> PerformanceRow {
    PerformanceRow {
        label: Some(label),
        lower_bound: Distance(lower.0, lower.1),
        middle_value: Distance(middle.0, middle.1),
        upper_bound: Distance(upper.0, upper.1),
    }
}

#[test]
fn weight_classes() {
    assert_eq!(AircraftWeight::find_takeoff_weight(2301), Err(PerformanceError::OverMaxWeight));
    assert_eq!(AircraftWeight::find_takeoff_weight(2300), Ok(AircraftWeight::At2300Lbs));
    assert_eq!(AircraftWeight::find_takeoff_weight(2101), Ok(AircraftWeight::At2300Lbs));
    assert_eq!(AircraftWeight::find_takeoff_weight(2100), Ok(AircraftWeight::At2100Lbs));
    assert_eq!(AircraftWeight::find_takeoff_weight(1901), Ok(AircraftWeight::At2100Lbs));
    assert_eq!(AircraftWeight::find_takeoff_weight(1900), Ok(AircraftWeight::At1900Lbs));
    assert_eq!(AircraftWeight::find_takeoff_weight(1200), Ok(AircraftWeight::At1900Lbs));
}

#[test]
fn new_derives_pressure_altitude() {
    let cessna = Cessna172M::new(Velocity::Knots(0), 1000, Pressure::Altimeter(2982), 15);
    assert_eq!(cessna.pressure_altitude_ft, 1100);
    assert_eq!(cessna.pressure_in_hg, 2982);
    assert_eq!(cessna.elevation_ft, 1000);
}

#[test]
fn take_off_sea_level_calm() {
    let performance = at_altitude(0, 0, 0).calc_take_off(2300).unwrap();
    assert_eq!(performance.distance_rows[1].middle_value, Distance(775, 1380));
    assert_eq!(performance.corrections.wind_correction_percentage, Fraction { num: 20, den: 20 });
    assert_eq!(performance.corrections.distance_corrected_for_wind, Distance(775, 1380));
    assert_eq!(performance.corrections.grass_offset, 116);
    assert_eq!(performance.corrections.distance_corrected_for_grass, Distance(891, 1496));
}

#[test]
fn take_off_interpolates_temperature_then_altitude() {
    let performance = at_altitude(9, 1500, 15).calc_take_off(2000).unwrap();
    assert_eq!(performance.pressure_altitude_tween_percentage, Fraction { num: 500, den: 1000 });
    assert_eq!(performance.temperature_c_tween_percentage, Fraction { num: 5, den: 10 });
    assert_eq!(performance.lower_temperature_c, 10);
    assert_eq!(performance.upper_temperature_c, 20);
    assert_eq!(performance.distance_rows[0], row(1000, (740, 1320), (768, 1363), (795, 1405)));
    assert_eq!(performance.distance_rows[1], row(1500, (775, 1380), (804, 1427), (833, 1473)));
    assert_eq!(performance.distance_rows[2], row(2000, (810, 1440), (840, 1490), (870, 1540)));
    assert_eq!(performance.corrections.wind_correction_percentage, Fraction { num: 81, den: 90 });
    assert_eq!(performance.corrections.distance_corrected_for_wind, Distance(724, 1284));
    assert_eq!(performance.corrections.grass_ground_roll_percentage, Fraction { num: 15, den: 100 });
    assert_eq!(performance.corrections.grass_offset, 109);
    assert_eq!(performance.corrections.distance_corrected_for_grass, Distance(833, 1393));
}

#[test]
fn tailwind_increases_take_off_distance() {
    let performance = at_altitude(-4, 500, 25).calc_take_off(1800).unwrap();
    assert_eq!(performance.distance_rows[1].middle_value, Distance(629, 1119));
    assert_eq!(performance.corrections.wind_correction_percentage, Fraction { num: 24, den: 20 });
    assert_eq!(performance.corrections.distance_corrected_for_wind, Distance(755, 1343));
    assert_eq!(performance.corrections.distance_corrected_for_grass, Distance(868, 1456));
}

#[test]
fn take_off_near_top_row() {
    let performance = at_altitude(0, 7999, 10).calc_take_off(2000).unwrap();
    assert_eq!(performance.pressure_altitude_tween_percentage, Fraction { num: 999, den: 1000 });
    assert_eq!(performance.distance_rows[1].middle_value, Distance(1445, 2615));
    assert_eq!(performance.corrections.distance_corrected_for_grass, Distance(1662, 2832));
}

#[test]
fn take_off_on_last_column() {
    let performance = at_altitude(0, 100, 40).calc_take_off(2000).unwrap();
    assert_eq!(performance.distance_rows[1].middle_value, Distance(843, 1479));
    assert_eq!(performance.corrections.distance_corrected_for_grass, Distance(969, 1605));
}

#[test]
fn unpublished_cells_fail_take_off() {
    let missing = Err(PerformanceError::ClimbPerformanceNotPublished);
    assert_eq!(at_altitude(0, 6500, 35).calc_take_off(2300), missing);
    assert_eq!(at_altitude(0, 5500, 35).calc_take_off(2300), missing);
    assert_eq!(at_altitude(0, 7000, 30).calc_take_off(2300), missing);
    assert!(at_altitude(0, 6500, 35).calc_take_off(2100).is_ok());
}

#[test]
fn take_off_range_errors() {
    assert_eq!(at_altitude(0, 100, 20).calc_take_off(2400), Err(PerformanceError::OverMaxWeight));
    assert_eq!(at_altitude(0, 8000, 10).calc_take_off(2000), Err(PerformanceError::AltitudeOutOfBounds));
    assert_eq!(at_altitude(0, 100, 60).calc_take_off(2000), Err(PerformanceError::TemperatureOutOfBounds));
    assert_eq!(at_altitude(0, 100, 45).calc_take_off(2000), Err(PerformanceError::UpperColumnOutOfBounds));
    assert_eq!(at_altitude(0, 100, 50).calc_take_off(2000), Err(PerformanceError::UpperColumnOutOfBounds));
}

#[test]
fn landing_sea_level_calm() {
    let performance = at_altitude(0, 0, 0).calc_landing().unwrap();
    assert_eq!(performance.distance_rows[1].middle_value, Distance(495, 1205));
    assert_eq!(performance.corrections.grass_ground_roll_percentage, Fraction { num: 45, den: 100 });
    assert_eq!(performance.corrections.grass_offset, 223);
    assert_eq!(performance.corrections.distance_corrected_for_grass, Distance(718, 1428));
}

#[test]
fn landing_with_headwind() {
    let performance = at_altitude(18, 2500, 12).calc_landing().unwrap();
    assert_eq!(performance.distance_rows[0], row(2000, (550, 1300), (554, 1307), (570, 1335)));
    assert_eq!(performance.distance_rows[1], row(2500, (560, 1318), (564, 1325), (580, 1353)));
    assert_eq!(performance.distance_rows[2], row(3000, (570, 1335), (574, 1342), (590, 1370)));
    assert_eq!(performance.corrections.wind_correction_percentage, Fraction { num: 72, den: 90 });
    assert_eq!(performance.corrections.distance_corrected_for_wind, Distance(451, 1060));
    assert_eq!(performance.corrections.grass_offset, 203);
    assert_eq!(performance.corrections.distance_corrected_for_grass, Distance(654, 1263));
}

#[test]
fn landing_with_tailwind() {
    let performance = at_altitude(-2, 3200, 30).calc_landing().unwrap();
    assert_eq!(performance.distance_rows[1].middle_value, Distance(615, 1413));
    assert_eq!(performance.corrections.distance_corrected_for_wind, Distance(677, 1554));
    assert_eq!(performance.corrections.distance_corrected_for_grass, Distance(982, 1859));
}

#[test]
fn landing_only_for_heaviest_class() {
    for weight in [AircraftWeight::At2100Lbs, AircraftWeight::At1900Lbs] {
        assert_eq!(weight.find_landing_distance(0, 0), Err(PerformanceError::PerformanceNotDefined));
        assert_eq!(weight.find_landing_distance(3000, 25), Err(PerformanceError::PerformanceNotDefined));
    }
    let row = AircraftWeight::At2300Lbs.find_landing_distance(3000, 25).unwrap();
    assert_eq!(row.pressure_altitude_ft, 3000);
    assert_eq!(row.lower_temperature_c, 20);
    assert_eq!(row.lower_distance, Distance(590, 1370));
    assert_eq!(row.upper_temperature_c, 30);
    assert_eq!(row.upper_distance, Distance(610, 1405));
}

#[test]
fn take_off_row_of_a_weight_class() {
    let row = AircraftWeight::At2300Lbs.find_take_off_distance(6200, 35).unwrap();
    assert_eq!(row.pressure_altitude_ft, 6000);
    assert_eq!(row.lower_distance, Some(Distance(1700, 3070)));
    assert_eq!(row.upper_distance, None);
}

#[test]
fn tailwind_limit() {
    assert!(!at_altitude(-10, 0, 0).is_tailwind_over_limit());
    assert!(at_altitude(-11, 0, 0).is_tailwind_over_limit());
    assert!(!at_altitude(15, 0, 0).is_tailwind_over_limit());
}

#[test]
fn definite_row_needs_both_cells() {
    let cessna = at_altitude(0, 6200, 35);
    let row = AircraftWeight::At2300Lbs.find_take_off_distance(6200, 35).unwrap();
    assert!(cessna.convert_to_definite_row_result(row).is_none());
    let row = AircraftWeight::At2300Lbs.find_take_off_distance(6200, 25).unwrap();
    let definite = cessna.convert_to_definite_row_result(row).unwrap();
    assert_eq!(definite.lower_distance, Distance(1580, 2850));
    assert_eq!(definite.upper_distance, Distance(1700, 3070));
    assert_eq!(definite.pressure_altitude_ft, 6000);
}
