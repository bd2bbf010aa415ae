//! The distance pair read off a chart, and the labelled rows that report
//! one interpolation pass.

use vstd::prelude::*;

verus! {

/// A ground run and the distance to clear a 50 ft obstacle, in feet.
#[derive(Clone, Copy, Debug, PartialEq, Eq, Structural)]
pub struct Distance(pub i16, pub i16);

impl Distance {
    /// Ground run, in feet.
    pub fn ground_run(&self) -> (r: i16)
        ensures
            r == self.0,
    {
        self.0
    }

    /// Distance to clear a 50 ft obstacle, in feet.
    pub fn clear_50_ft_obstacle(&self) -> (r: i16)
        ensures
            r == self.1,
    {
        self.1
    }
}

/// One row of an interpolation pass: the two bracketing distances, the
/// value interpolated between them, and an optional label (a wind speed or
/// a pressure altitude).
#[derive(Clone, Copy, Debug, PartialEq, Eq, Structural)]
pub struct PerformanceRow {
    pub label: Option<i16>,
    pub lower_bound: Distance,
    pub middle_value: Distance,
    pub upper_bound: Distance,
}

impl PerformanceRow {
    fn new(
        label: Option<i16>,
        lower_bound: Distance,
        middle_value: Distance,
        upper_bound: Distance,
    ) -> (r: Self)
        ensures
            r == (PerformanceRow { label, lower_bound, middle_value, upper_bound }),
    {
        PerformanceRow { label, lower_bound, middle_value, upper_bound }
    }

    /// A row labelled with `label`.
    pub fn new_labeled(
        label: i16,
        lower_bound: Distance,
        middle_value: Distance,
        upper_bound: Distance,
    ) -> (r: Self)
        ensures
            r == (PerformanceRow { label: Some(label), lower_bound, middle_value, upper_bound }),
    {
        Self::new(Some(label), lower_bound, middle_value, upper_bound)
    }

    /// A row without a label.
    pub fn new_unlabeled(lower_bound: Distance, middle_value: Distance, upper_bound: Distance) -> (r:
        Self)
        ensures
            r == (PerformanceRow { label: None, lower_bound, middle_value, upper_bound }),
    {
        Self::new(None, lower_bound, middle_value, upper_bound)
    }
}

/// Why a performance figure could not be computed.
#[derive(Clone, Copy, Debug, PartialEq, Eq, Structural)]
pub enum PerformanceError {
    /// An input lies outside the range the chart covers.
    PerformanceNotDefined,
    /// The pressure altitude lies beyond the chart's rows.
    AltitudeOutOfBounds,
    /// The temperature lies beyond the chart's columns.
    TemperatureOutOfBounds,
    /// The temperature would need a column above the chart's last one.
    UpperColumnOutOfBounds,
    /// The weight is above the heaviest weight the chart covers.
    OverMaxWeight,
    /// A chart cell needed for the bracket is not published: climb
    /// performance there is below the chart's usability threshold.
    ClimbPerformanceNotPublished,
}

impl PerformanceError {
    /// A description of the error for a reader.
    pub fn message(&self) -> (r: &'static str)
        ensures
            *self == PerformanceError::PerformanceNotDefined ==> r@
                == "Unable to calculate, performance not defined"@,
            *self == PerformanceError::AltitudeOutOfBounds ==> r@ == "Altitude out of bounds"@,
            *self == PerformanceError::TemperatureOutOfBounds ==> r@ == "Temperature out of bounds"@,
            *self == PerformanceError::UpperColumnOutOfBounds ==> r@ == "Upper column out of bounds"@,
            *self == PerformanceError::OverMaxWeight ==> r@ == "Over max weight"@,
            *self == PerformanceError::ClimbPerformanceNotPublished ==> r@
                == "Climb performance not published for these conditions"@,
    {
        match self {
            PerformanceError::PerformanceNotDefined => "Unable to calculate, performance not defined",
            PerformanceError::AltitudeOutOfBounds => "Altitude out of bounds",
            PerformanceError::TemperatureOutOfBounds => "Temperature out of bounds",
            PerformanceError::UpperColumnOutOfBounds => "Upper column out of bounds",
            PerformanceError::OverMaxWeight => "Over max weight",
            PerformanceError::ClimbPerformanceNotPublished => "Climb performance not published for these conditions",
        }
    }
}

} // verus!
