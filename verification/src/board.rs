//! Board IO abstraction for standardized hardware initialization.
//!
//! Each platform groups its GPIO pins, buses and other peripherals in a
//! `Board` struct and implements [`BoardIo`] for it with the peripherals
//! type of its HAL.
use vstd::prelude::*;

verus! {

/// Trait for standardized board IO initialization.
///
/// `init` configures every peripheral the platform needs and returns them
/// grouped by subsystem. Implementations may panic where hardware
/// initialization fails.
pub trait BoardIo: Sized {
    /// HAL-specific peripherals type consumed during initialization.
    type Peripherals;

    /// Initialize all board-level IO from raw HAL peripherals.
    fn init(peripherals: Self::Peripherals) -> Self;
}

} // verus!
