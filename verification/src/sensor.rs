//! Error types of the physical and virtual temperature sensors.
use vstd::prelude::*;

verus! {

/// Error of a physical temperature sensor: any failure of the underlying
/// driver.
#[derive(Copy, Clone, Debug, PartialEq, Eq, Structural)]
pub struct PtsError;

/// Error of a virtual temperature sensor: a failed reading of one of the
/// physical sensors it aggregates, or a request it does not support.
#[derive(Copy, Clone, Debug, PartialEq, Eq, Structural)]
pub struct VtsError;

} // verus!
