use aircraft_performance::distance::{Distance, PerformanceError};
use aircraft_performance::math::{
    fraction, lerp, lerp_distance, round_ratio, scale, scale_down, scale_up, Fraction, Pressure,
    Temperature, Velocity,
};

#[test]
fn fraction_degenerate_bracket_is_zero() {
    assert_eq!(fraction(5, 3, 3), Fraction { num: 0, den: 1 });
    assert_eq!(fraction(-700, 0, 0), Fraction { num: 0, den: 1 });
}

#[test]
fn fraction_at_bracket_ends() {
    let low = fraction(2500, 2500, 5000);
    assert_eq!(low.num, 0);
    let high = fraction(5000, 2500, 5000);
    assert_eq!(high.num, high.den);
    assert_eq!(fraction(1000, 0, 2500), Fraction { num: 1000, den: 2500 });
}

#[test]
fn fraction_of_reversed_bracket() {
    assert_eq!(fraction(15, 20, 10), Fraction { num: 5, den: 10 });
}

#[test]
fn lerp_inverts_fraction() {
    for (x, lo, hi) in [(7i16, 0i16, 10i16), (-3, 4, -9), (1234, 1000, 2000), (0, 0, 1)] {
        let t = fraction(x as i32, lo as i32, hi as i32);
        assert_eq!(lerp(t, lo, hi), x);
    }
}

#[test]
fn lerp_rounds_half_away_from_zero() {
    let half = Fraction { num: 1, den: 2 };
    assert_eq!(lerp(half, 0, 5), 3);
    assert_eq!(lerp(half, 0, -5), -3);
    assert_eq!(lerp(Fraction { num: 2, den: 5 }, 735, 910), 805);
}

#[test]
fn lerp_distance_interpolates_each_component() {
    let t = Fraction { num: 2, den: 5 };
    assert_eq!(lerp_distance(t, Distance(735, 1385), Distance(910, 1660)), Distance(805, 1495));
}

#[test]
fn round_ratio_rounds_and_saturates() {
    assert_eq!(round_ratio(5, 2), 3);
    assert_eq!(round_ratio(-5, 2), -3);
    assert_eq!(round_ratio(12, 5), 2);
    assert_eq!(round_ratio(40000, 1), i16::MAX);
    assert_eq!(round_ratio(-40000, 1), i16::MIN);
}

#[test]
fn scaling_by_fractions() {
    assert_eq!(scale(1385, Fraction { num: 7, den: 100 }), 97);
    assert_eq!(scale_up(679, Fraction { num: 15, den: 350 }), 708);
    assert_eq!(scale_down(1099, Fraction { num: 5, den: 40 }), 962);
}

#[test]
fn velocity_conversions() {
    assert_eq!(Velocity::Knots(10).miles_per_hour(), 12);
    assert_eq!(Velocity::Knots(100).miles_per_hour(), 115);
    assert_eq!(Velocity::MilesPerHour(115).knots(), 100);
    assert_eq!(Velocity::MilesPerHour(23).knots(), 20);
    assert_eq!(Velocity::Knots(-7).knots(), -7);
    assert_eq!(Velocity::MilesPerHour(30).miles_per_hour(), 30);
}

#[test]
fn temperature_conversions() {
    assert_eq!(Temperature::Fahrenheit(59).celsius(), 15);
    assert_eq!(Temperature::Fahrenheit(32).celsius(), 0);
    assert_eq!(Temperature::Fahrenheit(-40).celsius(), -40);
    assert_eq!(Temperature::Fahrenheit(100).celsius(), 38);
    assert_eq!(Temperature::Celsius(15).fahrenheit(), 59);
    assert_eq!(Temperature::Celsius(-3).fahrenheit(), 27);
    assert_eq!(Temperature::Celsius(21).celsius(), 21);
}

#[test]
fn standard_temperature_by_elevation() {
    assert_eq!(Temperature::standard_temperature(0), Temperature::Fahrenheit(59));
    assert_eq!(Temperature::standard_temperature(1000), Temperature::Fahrenheit(56));
    assert_eq!(Temperature::standard_temperature(2000), Temperature::Fahrenheit(52));
    assert_eq!(Temperature::standard_temperature(5000), Temperature::Fahrenheit(42));
}

#[test]
fn pressure_altitude_from_altimeter() {
    assert_eq!(Pressure::Altimeter(2992).altitude(1000), 1000);
    assert_eq!(Pressure::Altimeter(2982).altitude(1000), 1100);
    assert_eq!(Pressure::Altimeter(3012).altitude(500), 300);
    assert_eq!(Pressure::Altitude(1800).altitude(1000), 1800);
    assert_eq!(Pressure::Altitude(1100).altimeter(1000), 2982);
    assert_eq!(Pressure::Altimeter(3001).altimeter(0), 3001);
}

#[test]
fn error_messages() {
    assert_eq!(PerformanceError::PerformanceNotDefined.message(), "Unable to calculate, performance not defined");
    assert_eq!(PerformanceError::UpperColumnOutOfBounds.message(), "Upper column out of bounds");
    assert_eq!(PerformanceError::OverMaxWeight.message(), "Over max weight");
}
