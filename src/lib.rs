//! Take-off and landing distance estimates from published aircraft
//! performance charts, and the airport data that feeds them.

pub mod math;
pub mod distance;
pub mod cessna150j;
pub mod cessna172m;
pub mod airports;
pub mod parameters;
