use aircraft_performance::cessna150j::{find_atmosphere, Atmosphere, Cessna150J};
use aircraft_performance::distance::{Distance, PerformanceError, PerformanceRow};
use aircraft_performance::math::{Fraction, Velocity};

fn row(label: Option<i16>, lower: (i16, i16), middle: (i16, i16), upper: (i16, i16)) -> PerformanceRow {
    PerformanceRow {
        label,
        lower_bound: Distance(lower.0, lower.1),
        middle_value: Distance(middle.0, middle.1),
        upper_bound: Distance(upper.0, upper.1),
    }
}

#[test]
fn take_off_calm_sea_level_standard_day() {
    let cessna = Cessna150J::new(Velocity::Knots(0), 59, 0, 59).unwrap();
    let take_off = cessna.calc_take_off();
    assert_eq!(take_off.distance_at_elevation, Distance(735, 1385));
    assert_eq!(take_off.correction.standard_temperature_correction_percentage.num, 0);
    assert_eq!(take_off.correction.distance_corrected_for_temperature, Distance(735, 1385));
    assert_eq!(take_off.correction.grass_offset, 97);
    assert_eq!(take_off.correction.distance_corrected_for_grass, Distance(735 + 97, 1385 + 97));
}

#[test]
fn landing_calm_sea_level_standard_day() {
    let cessna = Cessna150J::new(Velocity::Knots(0), 59, 0, 59).unwrap();
    let landing = cessna.calc_landing();
    assert_eq!(landing.distance_at_elevation, Distance(445, 1075));
    assert_eq!(landing.headwind_correction_percentage.num, 0);
    assert_eq!(landing.distance_with_headwind, Distance(445, 1075));
    assert_eq!(landing.correction.standard_temperature_correction_percentage.num, 0);
    assert_eq!(landing.correction.grass_offset, 215);
    assert_eq!(landing.correction.distance_corrected_for_grass, Distance(660, 1290));
}

#[test]
fn reference_altitude_collapses_bracket() {
    for elevation in [0i16, 2500, 5000, 7500] {
        let cessna = Cessna150J::new(Velocity::Knots(5), 59, elevation, 59).unwrap();
        assert_eq!(cessna.atmosphere_bounds.lower, cessna.atmosphere_bounds.upper);
        assert_eq!(cessna.atmosphere_bounds.lower.altitude, elevation);
        assert_eq!(cessna.altitude_tween_percentage, Fraction { num: 0, den: 1 });
    }
    let cessna = Cessna150J::new(Velocity::Knots(5), 59, 2500, 59).unwrap();
    assert_eq!(cessna.atmosphere_bounds.lower.indexer, Atmosphere::Alt2500_50F);
    assert_eq!(cessna.atmosphere_bounds.lower.temperature, 50);
}

#[test]
fn take_off_between_chart_points() {
    let cessna = Cessna150J::new(Velocity::Knots(5), 70, 1000, 55).unwrap();
    assert_eq!(cessna.headwind_tween_percentage, Fraction { num: 5, den: 10 });
    assert_eq!(cessna.altitude_tween_percentage, Fraction { num: 1000, den: 2500 });
    assert_eq!(cessna.temperature_f_diff_from_standard, 15);
    let take_off = cessna.calc_take_off();
    assert_eq!(take_off.takeoff_distances[0], row(Some(0), (735, 1385), (805, 1495), (910, 1660)));
    assert_eq!(take_off.takeoff_distances[1], row(Some(5), (618, 1210), (679, 1308), (770, 1455)));
    assert_eq!(take_off.takeoff_distances[2], row(Some(10), (500, 1035), (552, 1121), (630, 1250)));
    assert_eq!(take_off.distance_at_elevation, Distance(679, 1308));
    assert_eq!(take_off.correction.standard_temperature_correction_percentage, Fraction { num: 15, den: 350 });
    assert_eq!(take_off.correction.distance_corrected_for_temperature, Distance(708, 1364));
    assert_eq!(take_off.correction.grass_offset, 95);
    assert_eq!(take_off.correction.distance_corrected_for_grass, Distance(803, 1459));
}

#[test]
fn landing_between_chart_points() {
    let cessna = Cessna150J::new(Velocity::Knots(5), 70, 1000, 55).unwrap();
    let landing = cessna.calc_landing();
    assert_eq!(landing.landing_distances, row(None, (445, 1075), (455, 1099), (470, 1135)));
    assert_eq!(landing.headwind_correction_percentage, Fraction { num: 5, den: 40 });
    assert_eq!(landing.distance_with_headwind, Distance(398, 962));
    assert_eq!(landing.correction.standard_temperature_correction_percentage, Fraction { num: 15, den: 600 });
    assert_eq!(landing.correction.distance_corrected_for_temperature, Distance(408, 986));
    assert_eq!(landing.correction.grass_offset, 197);
    assert_eq!(landing.correction.distance_corrected_for_grass, Distance(605, 1183));
}

#[test]
fn take_off_high_and_windy() {
    let cessna = Cessna150J::new(Velocity::Knots(15), 40, 6000, 38).unwrap();
    let take_off = cessna.calc_take_off();
    assert_eq!(take_off.distance_at_elevation, Distance(708, 1430));
    assert_eq!(take_off.correction.distance_corrected_for_temperature, Distance(712, 1438));
    assert_eq!(take_off.correction.distance_corrected_for_grass, Distance(813, 1539));
    let landing = cessna.calc_landing();
    assert_eq!(landing.distance_at_elevation, Distance(505, 1219));
    assert_eq!(landing.distance_with_headwind, Distance(316, 762));
    assert_eq!(landing.correction.distance_corrected_for_grass, Distance(470, 918));
}

#[test]
fn top_of_chart_wind_and_altitude() {
    let cessna = Cessna150J::new(Velocity::Knots(20), 80, 7500, 32).unwrap();
    assert_eq!(cessna.headwinds.lower_value, Velocity::Knots(20));
    assert_eq!(cessna.headwinds.upper_value, Velocity::Knots(20));
    let take_off = cessna.calc_take_off();
    assert_eq!(take_off.distance_at_elevation, Distance(640, 1375));
    assert_eq!(take_off.correction.distance_corrected_for_temperature, Distance(728, 1564));
    assert_eq!(take_off.correction.distance_corrected_for_grass, Distance(837, 1673));
    let landing = cessna.calc_landing();
    assert_eq!(landing.distance_with_headwind, Distance(260, 628));
    assert_eq!(landing.correction.distance_corrected_for_grass, Distance(417, 814));
}

#[test]
fn colder_than_standard_never_shortens() {
    let cessna = Cessna150J::new(Velocity::Knots(0), 20, 0, 59).unwrap();
    let take_off = cessna.calc_take_off();
    assert_eq!(take_off.correction.standard_temperature_correction_percentage.num, 0);
    assert_eq!(take_off.correction.distance_corrected_for_temperature, Distance(735, 1385));
}

#[test]
fn wind_given_in_miles_per_hour() {
    let cessna = Cessna150J::new(Velocity::MilesPerHour(23), 59, 0, 59).unwrap();
    assert_eq!(cessna.headwind_kts, 20);
}

#[test]
fn out_of_range_inputs_fail() {
    let not_defined = Err(PerformanceError::PerformanceNotDefined);
    assert_eq!(Cessna150J::new(Velocity::Knots(-3), 59, 0, 59), not_defined);
    assert_eq!(Cessna150J::new(Velocity::Knots(21), 59, 0, 59), not_defined);
    assert_eq!(Cessna150J::new(Velocity::Knots(5), 59, -1, 59), not_defined);
    assert_eq!(Cessna150J::new(Velocity::Knots(5), 59, 7501, 59), not_defined);
    assert!(Cessna150J::new(Velocity::Knots(5), 59, 7500, 59).is_ok());
}

#[test]
fn atmosphere_bracket_on_and_between_reference_points() {
    for altitude in [0i16, 2500, 5000, 7500] {
        let b = find_atmosphere(altitude).unwrap();
        assert_eq!(b.lower, b.upper);
        assert_eq!(b.lower.altitude, altitude);
    }
    let b = find_atmosphere(6000).unwrap();
    assert_eq!(b.lower.indexer, Atmosphere::Alt5000_41F);
    assert_eq!(b.upper.indexer, Atmosphere::Alt7500_32F);
    assert_eq!(b.upper.temperature, 32);
    assert_eq!(find_atmosphere(7501), Err(aircraft_performance::distance::PerformanceError::PerformanceNotDefined));
}
