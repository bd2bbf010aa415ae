//! Performance model for the heavier aircraft: a three-axis chart (weight
//! class by pressure altitude by temperature) with sparsely published
//! cells, and tabulated wind and grass corrections.

use vstd::prelude::*;
use crate::distance::{Distance, PerformanceError, PerformanceRow};
use vstd::arithmetic::div_mod::{lemma_fundamental_div_mod, lemma_fundamental_div_mod_converse};
use crate::math::{
    Fraction, Pressure, Velocity, fraction, fraction_spec, lerp_distance, lerp_distance_spec,
    round_ratio, rounded_i16, scale,
};

verus! {

/// The weight classes of the take-off chart, by maximum gross weight
/// (2300, 2100 and 1900 lb).
#[derive(Clone, Copy, Debug, PartialEq, Eq, Structural)]
pub enum AircraftWeight {
    At2300Lbs,
    At2100Lbs,
    At1900Lbs,
}

/// One pressure-altitude row of a chart, bracketed in temperature: the
/// row's altitude, and the chart cells at the temperatures either side.
#[derive(Clone, Copy, Debug, PartialEq, Eq, Structural)]
pub struct AircraftWeightRowResult<T> {
    pub pressure_altitude_ft: i16,
    pub lower_temperature_c: i16,
    pub lower_distance: T,
    pub upper_temperature_c: i16,
    pub upper_distance: T,
}

/// A row (one pressure altitude, 1000 ft apart from 0 ft) of the take-off
/// chart of a weight class: ground roll and 50 ft obstacle distance at
/// 0, 10, 20, 30 and 40 °C; `None` where climb performance after lift-off
/// is below the chart's usability threshold.
pub open spec fn take_off_chart_row(weight: AircraftWeight, row: int) -> Seq<Option<Distance>> {
    match weight {
        AircraftWeight::At2300Lbs => {
            if row == 0 {
                seq![Some(Distance(775, 1380)), Some(Distance(835, 1475)), Some(Distance(895, 1575)), Some(Distance(960, 1685)), Some(Distance(1030, 1795))]
            } else if row == 1 {
                seq![Some(Distance(850, 1510)), Some(Distance(915, 1615)), Some(Distance(980, 1725)), Some(Distance(1050, 1845)), Some(Distance(1125, 1970))]
            } else if row == 2 {
                seq![Some(Distance(930, 1650)), Some(Distance(1000, 1770)), Some(Distance(1075, 1895)), Some(Distance(1155, 2030)), Some(Distance(1235, 2170))]
            } else if row == 3 {
                seq![Some(Distance(1020, 1815)), Some(Distance(1100, 1945)), Some(Distance(1180, 2085)), Some(Distance(1270, 2235)), Some(Distance(1360, 2395))]
            } else if row == 4 {
                seq![Some(Distance(1125, 2000)), Some(Distance(1210, 2145)), Some(Distance(1300, 2305)), Some(Distance(1395, 2475)), Some(Distance(1495, 2655))]
            } else if row == 5 {
                seq![Some(Distance(1235, 2210)), Some(Distance(1330, 2375)), Some(Distance(1430, 2555)), Some(Distance(1540, 2750)), Some(Distance(1650, 2960))]
            } else if row == 6 {
                seq![Some(Distance(1365, 2450)), Some(Distance(1470, 2640)), Some(Distance(1580, 2850)), Some(Distance(1700, 3070)), None]
            } else if row == 7 {
                seq![Some(Distance(1505, 2730)), Some(Distance(1625, 2955)), Some(Distance(1750, 3190)), None, None]
            } else {
                seq![Some(Distance(1505, 2730)), Some(Distance(1625, 2955)), Some(Distance(1750, 3190)), None, None]
            }
        },
        AircraftWeight::At2100Lbs => {
            if row == 0 {
                seq![Some(Distance(630, 1130)), Some(Distance(680, 1210)), Some(Distance(725, 1290)), Some(Distance(780, 1375)), Some(Distance(835, 1465))]
            } else if row == 1 {
                seq![Some(Distance(690, 1235)), Some(Distance(740, 1320)), Some(Distance(795, 1405)), Some(Distance(855, 1500)), Some(Distance(915, 1600))]
            } else if row == 2 {
                seq![Some(Distance(755, 1350)), Some(Distance(810, 1440)), Some(Distance(870, 1540)), Some(Distance(935, 1645)), Some(Distance(1000, 1755))]
            } else if row == 3 {
                seq![Some(Distance(830, 1475)), Some(Distance(890, 1580)), Some(Distance(955, 1690)), Some(Distance(1025, 1805)), Some(Distance(1100, 1930))]
            } else if row == 4 {
                seq![Some(Distance(910, 1620)), Some(Distance(980, 1735)), Some(Distance(1050, 1860)), Some(Distance(1125, 1990)), Some(Distance(1210, 2130))]
            } else if row == 5 {
                seq![Some(Distance(1000, 1780)), Some(Distance(1075, 1910)), Some(Distance(1155, 2050)), Some(Distance(1240, 2195)), Some(Distance(1330, 2355))]
            } else if row == 6 {
                seq![Some(Distance(1100, 1965)), Some(Distance(1185, 2115)), Some(Distance(1275, 2270)), Some(Distance(1370, 2435)), Some(Distance(1465, 2615))]
            } else if row == 7 {
                seq![Some(Distance(1215, 2180)), Some(Distance(1305, 2345)), Some(Distance(1405, 2520)), Some(Distance(1510, 2715)), Some(Distance(1620, 2920))]
            } else {
                seq![Some(Distance(1340, 2425)), Some(Distance(1445, 2615)), Some(Distance(1555, 2815)), Some(Distance(1675, 3040)), Some(Distance(1795, 3280))]
            }
        },
        AircraftWeight::At1900Lbs => {
            if row == 0 {
                seq![Some(Distance(505, 915)), Some(Distance(540, 975)), Some(Distance(580, 1035)), Some(Distance(620, 1105)), Some(Distance(665, 1175))]
            } else if row == 1 {
                seq![Some(Distance(550, 995)), Some(Distance(590, 1060)), Some(Distance(635, 1130)), Some(Distance(680, 1205)), Some(Distance(725, 1280))]
            } else if row == 2 {
                seq![Some(Distance(600, 1085)), Some(Distance(645, 1155)), Some(Distance(695, 1230)), Some(Distance(745, 1315)), Some(Distance(795, 1400))]
            } else if row == 3 {
                seq![Some(Distance(660, 1180)), Some(Distance(710, 1260)), Some(Distance(760, 1345)), Some(Distance(815, 1435)), Some(Distance(870, 1530))]
            } else if row == 4 {
                seq![Some(Distance(725, 1290)), Some(Distance(775, 1380)), Some(Distance(835, 1475)), Some(Distance(895, 1575)), Some(Distance(955, 1680))]
            } else if row == 5 {
                seq![Some(Distance(795, 1415)), Some(Distance(855, 1515)), Some(Distance(915, 1620)), Some(Distance(985, 1735)), Some(Distance(1055, 1850))]
            } else if row == 6 {
                seq![Some(Distance(870, 1555)), Some(Distance(940, 1670)), Some(Distance(1010, 1785)), Some(Distance(1080, 1910)), Some(Distance(1160, 2045))]
            } else if row == 7 {
                seq![Some(Distance(960, 1715)), Some(Distance(1035, 1840)), Some(Distance(1110, 1975)), Some(Distance(1195, 2115)), Some(Distance(1280, 2265))]
            } else {
                seq![Some(Distance(1060, 1900)), Some(Distance(1140, 2040)), Some(Distance(1225, 2190)), Some(Distance(1320, 2350)), Some(Distance(1415, 2520))]
            }
        },
    }
}

/// A row of the landing chart, which is published for the heaviest weight
/// class only: ground roll and 50 ft obstacle distance at 0, 10, 20, 30 and
/// 40 °C.
pub open spec fn landing_chart_row(row: int) -> Seq<Distance> {
    if row == 0 {
        seq![Distance(495, 1205), Distance(510, 1235), Distance(530, 1265), Distance(545, 1295), Distance(565, 1330)]
    } else if row == 1 {
        seq![Distance(510, 1235), Distance(530, 1265), Distance(550, 1300), Distance(565, 1330), Distance(585, 1365)]
    } else if row == 2 {
        seq![Distance(530, 1265), Distance(550, 1300), Distance(570, 1335), Distance(590, 1370), Distance(610, 1405)]
    } else if row == 3 {
        seq![Distance(550, 1300), Distance(570, 1335), Distance(590, 1370), Distance(610, 1405), Distance(630, 1440)]
    } else if row == 4 {
        seq![Distance(570, 1335), Distance(590, 1370), Distance(615, 1410), Distance(635, 1445), Distance(655, 1480)]
    } else if row == 5 {
        seq![Distance(590, 1370), Distance(615, 1415), Distance(635, 1450), Distance(655, 1485), Distance(680, 1525)]
    } else if row == 6 {
        seq![Distance(615, 1415), Distance(640, 1455), Distance(660, 1490), Distance(685, 1535), Distance(705, 1570)]
    } else if row == 7 {
        seq![Distance(640, 1455), Distance(660, 1495), Distance(685, 1535), Distance(710, 1575), Distance(730, 1615)]
    } else {
        seq![Distance(665, 1500), Distance(690, 1540), Distance(710, 1580), Distance(735, 1620), Distance(760, 1665)]
    }
}

fn take_off_table_row(weight: AircraftWeight, row: usize) -> (r: [Option<Distance>; 5])
    ensures
        r@ == take_off_chart_row(weight, row as int),
{
    match weight {
        AircraftWeight::At2300Lbs => {
            if row == 0 {
                [Some(Distance(775, 1380)), Some(Distance(835, 1475)), Some(Distance(895, 1575)), Some(Distance(960, 1685)), Some(Distance(1030, 1795))]
            } else if row == 1 {
                [Some(Distance(850, 1510)), Some(Distance(915, 1615)), Some(Distance(980, 1725)), Some(Distance(1050, 1845)), Some(Distance(1125, 1970))]
            } else if row == 2 {
                [Some(Distance(930, 1650)), Some(Distance(1000, 1770)), Some(Distance(1075, 1895)), Some(Distance(1155, 2030)), Some(Distance(1235, 2170))]
            } else if row == 3 {
                [Some(Distance(1020, 1815)), Some(Distance(1100, 1945)), Some(Distance(1180, 2085)), Some(Distance(1270, 2235)), Some(Distance(1360, 2395))]
            } else if row == 4 {
                [Some(Distance(1125, 2000)), Some(Distance(1210, 2145)), Some(Distance(1300, 2305)), Some(Distance(1395, 2475)), Some(Distance(1495, 2655))]
            } else if row == 5 {
                [Some(Distance(1235, 2210)), Some(Distance(1330, 2375)), Some(Distance(1430, 2555)), Some(Distance(1540, 2750)), Some(Distance(1650, 2960))]
            } else if row == 6 {
                [Some(Distance(1365, 2450)), Some(Distance(1470, 2640)), Some(Distance(1580, 2850)), Some(Distance(1700, 3070)), None]
            } else if row == 7 {
                [Some(Distance(1505, 2730)), Some(Distance(1625, 2955)), Some(Distance(1750, 3190)), None, None]
            } else {
                [Some(Distance(1505, 2730)), Some(Distance(1625, 2955)), Some(Distance(1750, 3190)), None, None]
            }
        },
        AircraftWeight::At2100Lbs => {
            if row == 0 {
                [Some(Distance(630, 1130)), Some(Distance(680, 1210)), Some(Distance(725, 1290)), Some(Distance(780, 1375)), Some(Distance(835, 1465))]
            } else if row == 1 {
                [Some(Distance(690, 1235)), Some(Distance(740, 1320)), Some(Distance(795, 1405)), Some(Distance(855, 1500)), Some(Distance(915, 1600))]
            } else if row == 2 {
                [Some(Distance(755, 1350)), Some(Distance(810, 1440)), Some(Distance(870, 1540)), Some(Distance(935, 1645)), Some(Distance(1000, 1755))]
            } else if row == 3 {
                [Some(Distance(830, 1475)), Some(Distance(890, 1580)), Some(Distance(955, 1690)), Some(Distance(1025, 1805)), Some(Distance(1100, 1930))]
            } else if row == 4 {
                [Some(Distance(910, 1620)), Some(Distance(980, 1735)), Some(Distance(1050, 1860)), Some(Distance(1125, 1990)), Some(Distance(1210, 2130))]
            } else if row == 5 {
                [Some(Distance(1000, 1780)), Some(Distance(1075, 1910)), Some(Distance(1155, 2050)), Some(Distance(1240, 2195)), Some(Distance(1330, 2355))]
            } else if row == 6 {
                [Some(Distance(1100, 1965)), Some(Distance(1185, 2115)), Some(Distance(1275, 2270)), Some(Distance(1370, 2435)), Some(Distance(1465, 2615))]
            } else if row == 7 {
                [Some(Distance(1215, 2180)), Some(Distance(1305, 2345)), Some(Distance(1405, 2520)), Some(Distance(1510, 2715)), Some(Distance(1620, 2920))]
            } else {
                [Some(Distance(1340, 2425)), Some(Distance(1445, 2615)), Some(Distance(1555, 2815)), Some(Distance(1675, 3040)), Some(Distance(1795, 3280))]
            }
        },
        AircraftWeight::At1900Lbs => {
            if row == 0 {
                [Some(Distance(505, 915)), Some(Distance(540, 975)), Some(Distance(580, 1035)), Some(Distance(620, 1105)), Some(Distance(665, 1175))]
            } else if row == 1 {
                [Some(Distance(550, 995)), Some(Distance(590, 1060)), Some(Distance(635, 1130)), Some(Distance(680, 1205)), Some(Distance(725, 1280))]
            } else if row == 2 {
                [Some(Distance(600, 1085)), Some(Distance(645, 1155)), Some(Distance(695, 1230)), Some(Distance(745, 1315)), Some(Distance(795, 1400))]
            } else if row == 3 {
                [Some(Distance(660, 1180)), Some(Distance(710, 1260)), Some(Distance(760, 1345)), Some(Distance(815, 1435)), Some(Distance(870, 1530))]
            } else if row == 4 {
                [Some(Distance(725, 1290)), Some(Distance(775, 1380)), Some(Distance(835, 1475)), Some(Distance(895, 1575)), Some(Distance(955, 1680))]
            } else if row == 5 {
                [Some(Distance(795, 1415)), Some(Distance(855, 1515)), Some(Distance(915, 1620)), Some(Distance(985, 1735)), Some(Distance(1055, 1850))]
            } else if row == 6 {
                [Some(Distance(870, 1555)), Some(Distance(940, 1670)), Some(Distance(1010, 1785)), Some(Distance(1080, 1910)), Some(Distance(1160, 2045))]
            } else if row == 7 {
                [Some(Distance(960, 1715)), Some(Distance(1035, 1840)), Some(Distance(1110, 1975)), Some(Distance(1195, 2115)), Some(Distance(1280, 2265))]
            } else {
                [Some(Distance(1060, 1900)), Some(Distance(1140, 2040)), Some(Distance(1225, 2190)), Some(Distance(1320, 2350)), Some(Distance(1415, 2520))]
            }
        },
    }
}

fn landing_table_row(row: usize) -> (r: [Distance; 5])
    ensures
        r@ == landing_chart_row(row as int),
{
    if row == 0 {
        [Distance(495, 1205), Distance(510, 1235), Distance(530, 1265), Distance(545, 1295), Distance(565, 1330)]
    } else if row == 1 {
        [Distance(510, 1235), Distance(530, 1265), Distance(550, 1300), Distance(565, 1330), Distance(585, 1365)]
    } else if row == 2 {
        [Distance(530, 1265), Distance(550, 1300), Distance(570, 1335), Distance(590, 1370), Distance(610, 1405)]
    } else if row == 3 {
        [Distance(550, 1300), Distance(570, 1335), Distance(590, 1370), Distance(610, 1405), Distance(630, 1440)]
    } else if row == 4 {
        [Distance(570, 1335), Distance(590, 1370), Distance(615, 1410), Distance(635, 1445), Distance(655, 1480)]
    } else if row == 5 {
        [Distance(590, 1370), Distance(615, 1415), Distance(635, 1450), Distance(655, 1485), Distance(680, 1525)]
    } else if row == 6 {
        [Distance(615, 1415), Distance(640, 1455), Distance(660, 1490), Distance(685, 1535), Distance(705, 1570)]
    } else if row == 7 {
        [Distance(640, 1455), Distance(660, 1495), Distance(685, 1535), Distance(710, 1575), Distance(730, 1615)]
    } else {
        [Distance(665, 1500), Distance(690, 1540), Distance(710, 1580), Distance(735, 1620), Distance(760, 1665)]
    }
}
/// The chart weight class for a weight: the lightest class whose maximum
/// is at least `weight_lbs`; above 2300 lb there is none.
pub open spec fn weight_class_spec(weight_lbs: int) -> Result<AircraftWeight, PerformanceError> {
    if weight_lbs > 2300 {
        Err(PerformanceError::OverMaxWeight)
    } else if weight_lbs > 2100 {
        Ok(AircraftWeight::At2300Lbs)
    } else if weight_lbs > 1900 {
        Ok(AircraftWeight::At2100Lbs)
    } else {
        Ok(AircraftWeight::At1900Lbs)
    }
}

/// Whether `t` is a multiple of 10.
pub open spec fn on_ten(t: int) -> bool {
    t % 10 == 0
}

/// The chart row (1000 ft each, floored, never below 0) and temperature
/// columns (10 °C each, floored, never below 0) that bracket a pressure
/// altitude and a temperature: the column below, and the column above
/// unless the temperature is on a column. Fails beyond row 8, beyond
/// column 5, or where the upper column is past the chart's last one.
pub open spec fn bracket_spec(pressure_altitude_ft: int, temperature_c: int) -> Result<
    (int, int, int),
    PerformanceError,
> {
    let row = if pressure_altitude_ft < 0 {
        0
    } else {
        pressure_altitude_ft / 1000
    };
    let column = if temperature_c < 0 {
        0
    } else {
        temperature_c / 10
    };
    let upper_column = if on_ten(temperature_c) {
        column
    } else {
        column + 1
    };
    if row > 8 {
        Err(PerformanceError::AltitudeOutOfBounds)
    } else if column > 5 {
        Err(PerformanceError::TemperatureOutOfBounds)
    } else if upper_column > 4 {
        Err(PerformanceError::UpperColumnOutOfBounds)
    } else {
        Ok((row, column, upper_column))
    }
}

/// The row of a chart at a resolved bracket (row, lower and upper column),
/// holding the two cells read at those columns.
pub open spec fn row_result_spec<T>(row: int, column: int, upper_column: int, lower: T, upper: T) -> AircraftWeightRowResult<T> {
    AircraftWeightRowResult {
        pressure_altitude_ft: (row * 1000) as i16,
        lower_temperature_c: (column * 10) as i16,
        lower_distance: lower,
        upper_temperature_c: (upper_column * 10) as i16,
        upper_distance: upper,
    }
}

/// The take-off chart row of a weight class at a pressure altitude and
/// temperature.
pub open spec fn take_off_row_spec(
    weight: AircraftWeight,
    pressure_altitude_ft: int,
    temperature_c: int,
) -> Result<AircraftWeightRowResult<Option<Distance>>, PerformanceError> {
    match bracket_spec(pressure_altitude_ft, temperature_c) {
        Err(e) => Err(e),
        Ok((row, column, upper_column)) => Ok(
            row_result_spec(
                row,
                column,
                upper_column,
                take_off_chart_row(weight, row)[column],
                take_off_chart_row(weight, row)[upper_column],
            ),
        ),
    }
}

/// The landing chart row at a pressure altitude and temperature; landing
/// is published for the heaviest weight class alone.
pub open spec fn landing_row_spec(
    weight: AircraftWeight,
    pressure_altitude_ft: int,
    temperature_c: int,
) -> Result<AircraftWeightRowResult<Distance>, PerformanceError> {
    if weight != AircraftWeight::At2300Lbs {
        Err(PerformanceError::PerformanceNotDefined)
    } else {
        match bracket_spec(pressure_altitude_ft, temperature_c) {
            Err(e) => Err(e),
            Ok((row, column, upper_column)) => Ok(
                row_result_spec(
                    row,
                    column,
                    upper_column,
                    landing_chart_row(row)[column],
                    landing_chart_row(row)[upper_column],
                ),
            ),
        }
    }
}

/// A take-off row whose two cells are both published, with the cells
/// unwrapped.
pub open spec fn definite_row_spec(row: AircraftWeightRowResult<Option<Distance>>) -> Option<
    AircraftWeightRowResult<Distance>,
> {
    match (row.lower_distance, row.upper_distance) {
        (Some(lower), Some(upper)) => Some(
            AircraftWeightRowResult {
                pressure_altitude_ft: row.pressure_altitude_ft,
                lower_temperature_c: row.lower_temperature_c,
                lower_distance: lower,
                upper_temperature_c: row.upper_temperature_c,
                upper_distance: upper,
            },
        ),
        _ => None,
    }
}

fn calc_row_column(pressure_altitude: i32, temperature_c: i16) -> (r: Result<
    (usize, usize, usize),
    PerformanceError,
>)
    ensures
        match bracket_spec(pressure_altitude as int, temperature_c as int) {
            Ok((row, column, upper_column)) => r == Ok::<(usize, usize, usize), PerformanceError>(
                (row as usize, column as usize, upper_column as usize),
            ),
            Err(e) => r == Err::<(usize, usize, usize), PerformanceError>(e),
        },
{
    let row: i32 = if pressure_altitude < 0 {
        0
    } else {
        pressure_altitude / 1000
    };
    if row > 8 {
        return Err(PerformanceError::AltitudeOutOfBounds);
    }
    let column: i16 = if temperature_c < 0 {
        0
    } else {
        temperature_c / 10
    };
    if column > 5 {
        return Err(PerformanceError::TemperatureOutOfBounds);
    }
    let magnitude: i32 = if temperature_c < 0 {
        -(temperature_c as i32)
    } else {
        temperature_c as i32
    };
    proof {
        assert(on_ten(temperature_c as int) <==> magnitude % 10 == 0) by {
            if temperature_c < 0 {
                let t = temperature_c as int;
                let m = magnitude as int;
                assert(t == -m);
                lemma_mod_negation(m);
            }
        }
    }
    let upper_column: i16 = if magnitude % 10 == 0 {
        column
    } else {
        column + 1
    };
    if upper_column > 4 {
        return Err(PerformanceError::UpperColumnOutOfBounds);
    }
    Ok((row as usize, column as usize, upper_column as usize))
}

proof fn lemma_mod_negation(m: int)
    requires
        m > 0,
    ensures
        ((-m) % 10 == 0) <==> (m % 10 == 0),
{
    lemma_fundamental_div_mod(m, 10);
    if m % 10 == 0 {
        lemma_fundamental_div_mod_converse(-m, 10, -(m / 10), 0);
    } else {
        lemma_fundamental_div_mod_converse(-m, 10, -(m / 10) - 1, 10 - m % 10);
    }
}

impl AircraftWeight {
    /// The weight class whose chart covers `weight_lbs`.
    pub fn find_takeoff_weight(weight_lbs: i16) -> (r: Result<AircraftWeight, PerformanceError>)
        ensures
            r == weight_class_spec(weight_lbs as int),
    {
        if weight_lbs > 2300 {
            Err(PerformanceError::OverMaxWeight)
        } else if weight_lbs > 2100 {
            Ok(Self::At2300Lbs)
        } else if weight_lbs > 1900 {
            Ok(Self::At2100Lbs)
        } else {
            Ok(Self::At1900Lbs)
        }
    }

    /// The take-off chart row of this weight class that brackets a
    /// pressure altitude and temperature.
    pub fn find_take_off_distance(&self, pressure_altitude: i32, temperature_c: i16) -> (r: Result<
        AircraftWeightRowResult<Option<Distance>>,
        PerformanceError,
    >)
        ensures
            r == take_off_row_spec(*self, pressure_altitude as int, temperature_c as int),
    {
        let (row, column, upper_column) = match calc_row_column(pressure_altitude, temperature_c) {
            Ok(b) => b,
            Err(e) => {
                return Err(e);
            },
        };
        let cells = take_off_table_row(*self, row);
        Ok(
            AircraftWeightRowResult {
                pressure_altitude_ft: (row * 1000) as i16,
                lower_temperature_c: (column * 10) as i16,
                lower_distance: cells[column],
                upper_temperature_c: (upper_column * 10) as i16,
                upper_distance: cells[upper_column],
            },
        )
    }

    fn take_off_distance_upper_bound(&self, pressure_altitude_ft: i16, temperature_c: i16) -> (r:
        Result<AircraftWeightRowResult<Option<Distance>>, PerformanceError>)
        ensures
            r == take_off_row_spec(*self, pressure_altitude_ft + 1000, temperature_c as int),
    {
        self.find_take_off_distance(pressure_altitude_ft as i32 + 1000, temperature_c)
    }

    fn take_off_distance_lower_bound(&self, pressure_altitude_ft: i16, temperature_c: i16) -> (r:
        Result<AircraftWeightRowResult<Option<Distance>>, PerformanceError>)
        ensures
            r == take_off_row_spec(*self, pressure_altitude_ft as int, temperature_c as int),
    {
        self.find_take_off_distance(pressure_altitude_ft as i32, temperature_c)
    }

    /// The landing chart row that brackets a pressure altitude and
    /// temperature. The landing chart is published for the heaviest
    /// weight class only: any other class fails with
    /// `PerformanceNotDefined`.
    pub fn find_landing_distance(&self, pressure_altitude_ft: i32, temperature_c: i16) -> (r:
        Result<AircraftWeightRowResult<Distance>, PerformanceError>)
        ensures
            r == landing_row_spec(*self, pressure_altitude_ft as int, temperature_c as int),
            *self != AircraftWeight::At2300Lbs ==> r == Err::<
                AircraftWeightRowResult<Distance>,
                PerformanceError,
            >(PerformanceError::PerformanceNotDefined),
    {
        match self {
            AircraftWeight::At2300Lbs => {
                let (row, column, upper_column) = match calc_row_column(
                    pressure_altitude_ft,
                    temperature_c,
                ) {
                    Ok(b) => b,
                    Err(e) => {
                        return Err(e);
                    },
                };
                let cells = landing_table_row(row);
                Ok(
                    AircraftWeightRowResult {
                        pressure_altitude_ft: (row * 1000) as i16,
                        lower_temperature_c: (column * 10) as i16,
                        lower_distance: cells[column],
                        upper_temperature_c: (upper_column * 10) as i16,
                        upper_distance: cells[upper_column],
                    },
                )
            },
            _ => Err(PerformanceError::PerformanceNotDefined),
        }
    }

    fn landing_distance_upper_bound(&self, pressure_altitude_ft: i16, temperature_c: i16) -> (r:
        Result<AircraftWeightRowResult<Distance>, PerformanceError>)
        ensures
            r == landing_row_spec(*self, pressure_altitude_ft + 1000, temperature_c as int),
    {
        self.find_landing_distance(pressure_altitude_ft as i32 + 1000, temperature_c)
    }

    fn landing_distance_lower_bound(&self, pressure_altitude_ft: i16, temperature_c: i16) -> (r:
        Result<AircraftWeightRowResult<Distance>, PerformanceError>)
        ensures
            r == landing_row_spec(*self, pressure_altitude_ft as int, temperature_c as int),
    {
        self.find_landing_distance(pressure_altitude_ft as i32, temperature_c)
    }
}

/// The wind correction factor: distances shrink by 10 % for each 9 kt of
/// headwind, and grow by 10 % for each 2 kt of tailwind (or calm).
pub open spec fn wind_factor_spec(headwind_kts: int) -> Fraction {
    if headwind_kts > 0 {
        Fraction { num: (90 - headwind_kts) as i64, den: 90 }
    } else {
        Fraction { num: (20 - headwind_kts) as i64, den: 20 }
    }
}

/// The grass correction for take-off: 15 % of the ground roll.
pub open spec fn take_off_grass_percentage() -> Fraction {
    Fraction { num: 15, den: 100 }
}

/// The grass correction for landing: 45 % of the ground roll.
pub open spec fn landing_grass_percentage() -> Fraction {
    Fraction { num: 45, den: 100 }
}

/// The correction chain: the wind factor applied to both components, then
/// the grass offset (a share of the corrected ground roll) added to both.
pub open spec fn corrections_spec(
    distance: Distance,
    headwind_kts: int,
    grass_ground_roll_percentage: Fraction,
) -> Corrections {
    let f = wind_factor_spec(headwind_kts);
    let w = Distance(
        rounded_i16(distance.0 * f.num, f.den as int),
        rounded_i16(distance.1 * f.num, f.den as int),
    );
    let offset = rounded_i16(
        w.0 * grass_ground_roll_percentage.num,
        grass_ground_roll_percentage.den as int,
    );
    Corrections {
        wind_correction_percentage: f,
        grass_ground_roll_percentage,
        distance_corrected_for_wind: w,
        grass_offset: offset,
        distance_corrected_for_grass: Distance(
            rounded_i16(w.0 + offset, 1),
            rounded_i16(w.1 + offset, 1),
        ),
    }
}

/// The corrections applied to an interpolated distance.
#[derive(Clone, Copy, Debug, PartialEq, Eq, Structural)]
pub struct Corrections {
    pub wind_correction_percentage: Fraction,
    pub grass_ground_roll_percentage: Fraction,
    pub distance_corrected_for_wind: Distance,
    pub grass_offset: i16,
    pub distance_corrected_for_grass: Distance,
}

/// A calculation: the tweens, the temperature bracket, the rows at the
/// lower chart altitude, at the actual pressure altitude and at the upper
/// chart altitude, and the corrections of the distance at the actual
/// pressure altitude (the middle value of the middle row).
#[derive(Clone, Copy, Debug, PartialEq, Eq)]
pub struct Performance {
    pub pressure_altitude_tween_percentage: Fraction,
    pub temperature_c_tween_percentage: Fraction,
    pub lower_temperature_c: i16,
    pub upper_temperature_c: i16,
    pub distance_rows: [PerformanceRow; 3],
    pub corrections: Corrections,
}

/// The conditions of one calculation.
#[derive(Clone, Copy, Debug, PartialEq, Eq, Structural)]
pub struct Cessna172M {
    pub headwind: Velocity,
    /// Altimeter setting, in hundredths of an inch of mercury.
    pub pressure_in_hg: i16,
    pub elevation_ft: i16,
    pub pressure_altitude_ft: i16,
    pub temperature_c: i16,
}

impl Cessna172M {
    /// The pressure-altitude tween between two chart rows.
    pub open spec fn spec_altitude_tween(
        self,
        lower_row: AircraftWeightRowResult<Distance>,
        upper_row: AircraftWeightRowResult<Distance>,
    ) -> Fraction {
        fraction_spec(
            self.pressure_altitude_ft as int,
            lower_row.pressure_altitude_ft as int,
            upper_row.pressure_altitude_ft as int,
        )
    }

    /// The temperature tween between the two columns of the bracket.
    pub open spec fn spec_temperature_tween(self, lower_row: AircraftWeightRowResult<Distance>) -> Fraction {
        fraction_spec(
            self.temperature_c as int,
            lower_row.lower_temperature_c as int,
            lower_row.upper_temperature_c as int,
        )
    }

    /// The three rows of a calculation: temperature is interpolated within
    /// each altitude row, and those results across the altitude.
    pub open spec fn spec_rows(
        self,
        lower_row: AircraftWeightRowResult<Distance>,
        upper_row: AircraftWeightRowResult<Distance>,
    ) -> Seq<PerformanceRow> {
        let a = self.spec_altitude_tween(lower_row, upper_row);
        let t = self.spec_temperature_tween(lower_row);
        let lower_middle = lerp_distance_spec(t, lower_row.lower_distance, lower_row.upper_distance);
        let upper_middle = lerp_distance_spec(t, upper_row.lower_distance, upper_row.upper_distance);
        seq![
            PerformanceRow {
                label: Some(lower_row.pressure_altitude_ft),
                lower_bound: lower_row.lower_distance,
                middle_value: lower_middle,
                upper_bound: lower_row.upper_distance,
            },
            PerformanceRow {
                label: Some(self.pressure_altitude_ft),
                lower_bound: lerp_distance_spec(a, lower_row.lower_distance, upper_row.lower_distance),
                middle_value: lerp_distance_spec(a, lower_middle, upper_middle),
                upper_bound: lerp_distance_spec(a, lower_row.upper_distance, upper_row.upper_distance),
            },
            PerformanceRow {
                label: Some(upper_row.pressure_altitude_ft),
                lower_bound: upper_row.lower_distance,
                middle_value: upper_middle,
                upper_bound: upper_row.upper_distance,
            },
        ]
    }

    /// Whether `p` is the calculation over two chart rows, with the given
    /// grass percentage.
    pub open spec fn is_performance(
        self,
        p: Performance,
        lower_row: AircraftWeightRowResult<Distance>,
        upper_row: AircraftWeightRowResult<Distance>,
        grass_ground_roll_percentage: Fraction,
    ) -> bool {
        let rows = self.spec_rows(lower_row, upper_row);
        &&& p.pressure_altitude_tween_percentage == self.spec_altitude_tween(lower_row, upper_row)
        &&& p.temperature_c_tween_percentage == self.spec_temperature_tween(lower_row)
        &&& p.lower_temperature_c == lower_row.lower_temperature_c
        &&& p.upper_temperature_c == upper_row.upper_temperature_c
        &&& p.distance_rows@ == rows
        &&& p.corrections == corrections_spec(
            rows[1].middle_value,
            self.headwind.spec_knots() as int,
            grass_ground_roll_percentage,
        )
    }

    /// The two take-off chart rows of a calculation at a weight: the row
    /// of the pressure altitude and the row 1000 ft above it, each
    /// bracketed in temperature, and all four cells published.
    pub open spec fn spec_take_off_rows(self, weight_lbs: int) -> Result<
        (AircraftWeightRowResult<Distance>, AircraftWeightRowResult<Distance>),
        PerformanceError,
    > {
        match weight_class_spec(weight_lbs) {
            Err(e) => Err(e),
            Ok(w) => match take_off_row_spec(w, self.pressure_altitude_ft as int, self.temperature_c as int) {
                Err(e) => Err(e),
                Ok(lower) => match take_off_row_spec(
                    w,
                    self.pressure_altitude_ft + 1000,
                    self.temperature_c as int,
                ) {
                    Err(e) => Err(e),
                    Ok(upper) => match (definite_row_spec(lower), definite_row_spec(upper)) {
                        (Some(l), Some(u)) => Ok((l, u)),
                        _ => Err(PerformanceError::ClimbPerformanceNotPublished),
                    },
                },
            },
        }
    }

    /// The two landing chart rows of a calculation.
    pub open spec fn spec_landing_rows(self) -> Result<
        (AircraftWeightRowResult<Distance>, AircraftWeightRowResult<Distance>),
        PerformanceError,
    > {
        match landing_row_spec(
            AircraftWeight::At2300Lbs,
            self.pressure_altitude_ft as int,
            self.temperature_c as int,
        ) {
            Err(e) => Err(e),
            Ok(lower) => match landing_row_spec(
                AircraftWeight::At2300Lbs,
                self.pressure_altitude_ft + 1000,
                self.temperature_c as int,
            ) {
                Err(e) => Err(e),
                Ok(upper) => Ok((lower, upper)),
            },
        }
    }

    /// The conditions at an elevation: the pressure altitude and altimeter
    /// setting follow from `pressure`.
    pub fn new(headwind: Velocity, elevation_ft: i16, pressure: Pressure, temperature_c: i16) -> (r:
        Self)
        ensures
            r == (Cessna172M {
                headwind,
                pressure_in_hg: pressure.spec_altimeter(elevation_ft as int),
                elevation_ft,
                pressure_altitude_ft: pressure.spec_altitude(elevation_ft as int),
                temperature_c,
            }),
    {
        let pressure_altitude_ft = pressure.altitude(elevation_ft);
        let pressure_in_hg = pressure.altimeter(elevation_ft);
        Cessna172M { headwind, pressure_in_hg, elevation_ft, pressure_altitude_ft, temperature_c }
    }

    /// Whether the wind is a tailwind beyond the 10 kt the chart's notes
    /// allow.
    pub fn is_tailwind_over_limit(&self) -> (r: bool)
        ensures
            r == (self.headwind.spec_knots() < -10),
    {
        self.headwind.knots() < -10
    }

    fn calc_corrections(&self, distance_at_elevation: Distance, grass_ground_roll_percentage: Fraction) -> (r:
        Corrections)
        requires
            grass_ground_roll_percentage.wf(),
            0 <= grass_ground_roll_percentage.num <= grass_ground_roll_percentage.den,
        ensures
            r == corrections_spec(
                distance_at_elevation,
                self.headwind.spec_knots() as int,
                grass_ground_roll_percentage,
            ),
    {
        let headwind_kts = self.headwind.knots() as i64;
        let wind_correction_percentage = if headwind_kts > 0 {
            Fraction { num: 90 - headwind_kts, den: 90 }
        } else {
            Fraction { num: 20 - headwind_kts, den: 20 }
        };
        let distance_corrected_for_wind = Distance(
            scale(distance_at_elevation.0, wind_correction_percentage),
            scale(distance_at_elevation.1, wind_correction_percentage),
        );
        let grass_offset = scale(distance_corrected_for_wind.0, grass_ground_roll_percentage);
        let distance_corrected_for_grass = Distance(
            round_ratio(distance_corrected_for_wind.0 as i64 + grass_offset as i64, 1),
            round_ratio(distance_corrected_for_wind.1 as i64 + grass_offset as i64, 1),
        );
        Corrections {
            wind_correction_percentage,
            grass_ground_roll_percentage,
            distance_corrected_for_wind,
            grass_offset,
            distance_corrected_for_grass,
        }
    }

    fn calc_performance(
        &self,
        lower_row: AircraftWeightRowResult<Distance>,
        upper_row: AircraftWeightRowResult<Distance>,
        grass_ground_roll_percentage: Fraction,
    ) -> (r: Performance)
        requires
            grass_ground_roll_percentage.wf(),
            0 <= grass_ground_roll_percentage.num <= grass_ground_roll_percentage.den,
        ensures
            self.is_performance(r, lower_row, upper_row, grass_ground_roll_percentage),
    {
        let pressure_altitude_tween_percentage = fraction(
            self.pressure_altitude_ft as i32,
            lower_row.pressure_altitude_ft as i32,
            upper_row.pressure_altitude_ft as i32,
        );
        let temperature_c_tween_percentage = fraction(
            self.temperature_c as i32,
            lower_row.lower_temperature_c as i32,
            lower_row.upper_temperature_c as i32,
        );

        let lower_row_middle_tween = lerp_distance(
            temperature_c_tween_percentage,
            lower_row.lower_distance,
            lower_row.upper_distance,
        );
        let upper_row_middle_tween = lerp_distance(
            temperature_c_tween_percentage,
            upper_row.lower_distance,
            upper_row.upper_distance,
        );
        let middle_row_lower_tween = lerp_distance(
            pressure_altitude_tween_percentage,
            lower_row.lower_distance,
            upper_row.lower_distance,
        );
        let middle_row_upper_tween = lerp_distance(
            pressure_altitude_tween_percentage,
            lower_row.upper_distance,
            upper_row.upper_distance,
        );
        let distance_at_elevation = lerp_distance(
            pressure_altitude_tween_percentage,
            lower_row_middle_tween,
            upper_row_middle_tween,
        );

        let distance_rows = [
            PerformanceRow::new_labeled(
                lower_row.pressure_altitude_ft,
                lower_row.lower_distance,
                lower_row_middle_tween,
                lower_row.upper_distance,
            ),
            PerformanceRow::new_labeled(
                self.pressure_altitude_ft,
                middle_row_lower_tween,
                distance_at_elevation,
                middle_row_upper_tween,
            ),
            PerformanceRow::new_labeled(
                upper_row.pressure_altitude_ft,
                upper_row.lower_distance,
                upper_row_middle_tween,
                upper_row.upper_distance,
            ),
        ];
        let corrections = self.calc_corrections(distance_at_elevation, grass_ground_roll_percentage);
        let r = Performance {
            pressure_altitude_tween_percentage,
            temperature_c_tween_percentage,
            lower_temperature_c: lower_row.lower_temperature_c,
            upper_temperature_c: upper_row.upper_temperature_c,
            distance_rows,
            corrections,
        };
        assert(r.distance_rows@ =~= self.spec_rows(lower_row, upper_row));
        r
    }

    /// A take-off chart row with both cells published, unwrapped; nothing
    /// when either cell is missing (the present cell is never used alone).
    pub fn convert_to_definite_row_result(&self, row: AircraftWeightRowResult<Option<Distance>>) -> (r:
        Option<AircraftWeightRowResult<Distance>>)
        ensures
            r == definite_row_spec(row),
            r is None <==> (row.lower_distance is None || row.upper_distance is None),
    {
        match (row.lower_distance, row.upper_distance) {
            (Some(lower_distance), Some(upper_distance)) => Some(
                AircraftWeightRowResult {
                    pressure_altitude_ft: row.pressure_altitude_ft,
                    lower_temperature_c: row.lower_temperature_c,
                    lower_distance,
                    upper_temperature_c: row.upper_temperature_c,
                    upper_distance,
                },
            ),
            _ => None,
        }
    }

    /// Take-off performance at `weight_lbs`. Fails when the weight is
    /// above the heaviest class, when the pressure altitude or temperature
    /// is outside the chart, or when any of the four bracketing cells is
    /// not published: no figure is interpolated through a gap.
    pub fn calc_take_off(&self, weight_lbs: i16) -> (r: Result<Performance, PerformanceError>)
        ensures
            match self.spec_take_off_rows(weight_lbs as int) {
                Err(e) => r == Err::<Performance, PerformanceError>(e),
                Ok((lower, upper)) => r is Ok && self.is_performance(
                    r->Ok_0,
                    lower,
                    upper,
                    take_off_grass_percentage(),
                ),
            },
            ({
                let w = weight_class_spec(weight_lbs as int);
                let lower = take_off_row_spec(w->Ok_0, self.pressure_altitude_ft as int, self.temperature_c as int);
                let upper = take_off_row_spec(w->Ok_0, self.pressure_altitude_ft + 1000, self.temperature_c as int);
                (w is Ok && lower is Ok && upper is Ok && (
                    lower->Ok_0.lower_distance is None || lower->Ok_0.upper_distance is None
                    || upper->Ok_0.lower_distance is None || upper->Ok_0.upper_distance is None))
                    ==> r == Err::<Performance, PerformanceError>(PerformanceError::ClimbPerformanceNotPublished)
            }),
    {
        let takeoff_weight = match AircraftWeight::find_takeoff_weight(weight_lbs) {
            Ok(w) => w,
            Err(e) => {
                return Err(e);
            },
        };
        let lower_row_optional = match takeoff_weight.take_off_distance_lower_bound(
            self.pressure_altitude_ft,
            self.temperature_c,
        ) {
            Ok(row) => row,
            Err(e) => {
                return Err(e);
            },
        };
        let upper_row_optional = match takeoff_weight.take_off_distance_upper_bound(
            self.pressure_altitude_ft,
            self.temperature_c,
        ) {
            Ok(row) => row,
            Err(e) => {
                return Err(e);
            },
        };
        let lower_row = match self.convert_to_definite_row_result(lower_row_optional) {
            Some(row) => row,
            None => {
                return Err(PerformanceError::ClimbPerformanceNotPublished);
            },
        };
        let upper_row = match self.convert_to_definite_row_result(upper_row_optional) {
            Some(row) => row,
            None => {
                return Err(PerformanceError::ClimbPerformanceNotPublished);
            },
        };
        Ok(self.calc_performance(lower_row, upper_row, Fraction { num: 15, den: 100 }))
    }

    /// Landing performance, from the chart of the heaviest weight class.
    /// Fails when the pressure altitude or temperature is outside the
    /// chart.
    pub fn calc_landing(&self) -> (r: Result<Performance, PerformanceError>)
        ensures
            match self.spec_landing_rows() {
                Err(e) => r == Err::<Performance, PerformanceError>(e),
                Ok((lower, upper)) => r is Ok && self.is_performance(
                    r->Ok_0,
                    lower,
                    upper,
                    landing_grass_percentage(),
                ),
            },
    {
        let lower_row = match AircraftWeight::At2300Lbs.landing_distance_lower_bound(
            self.pressure_altitude_ft,
            self.temperature_c,
        ) {
            Ok(row) => row,
            Err(e) => {
                return Err(e);
            },
        };
        let upper_row = match AircraftWeight::At2300Lbs.landing_distance_upper_bound(
            self.pressure_altitude_ft,
            self.temperature_c,
        ) {
            Ok(row) => row,
            Err(e) => {
                return Err(e);
            },
        };
        Ok(self.calc_performance(lower_row, upper_row, Fraction { num: 45, den: 100 }))
    }
}

} // verus!
