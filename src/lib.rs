//! Shows a local sensor's reading and a remote thermostat's state on a two-line display.
pub mod display;
pub mod format;
pub mod lcd;
pub mod nest;
pub mod worker;

pub use crate::display::DisplayUpdate;
pub use crate::format::nest_data;
pub use crate::lcd::TwoStringPrint;
