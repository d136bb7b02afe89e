//! Platform logic shared by the embedded-controller development boards:
//! the self-test result counter, the battery fuel-gauge data model and
//! polling schedule, and the thermal PROCHOT bookkeeping.
pub mod battery;
pub mod battery_poll;
pub mod board;
pub mod sensor;
pub mod thermal_events;

pub use test::TestRunner;
