//! Constants for the sensor interface.

use vstd::prelude::*;

verus! {

/// Default I²C address of an SCD4x sensor.
pub const DEFAULT_ADDRESS: u8 = 0x62;

} // verus!
