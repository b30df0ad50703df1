//! Marker types for the operating-mode state machine.
//!
//! The sensor is either idle or measuring, and most commands are legal in
//! only one of the two modes. The mode is attached to the sensor handle's
//! type rather than kept as a runtime field, so a command issued in the
//! wrong mode is rejected by the compiler instead of failing at run time.

use vstd::prelude::*;

verus! {

/// State for the type-state pattern.
pub trait State {

}

/// Idle state for the type-state pattern.
pub struct Idle;

/// Measuring state for the type-state pattern.
pub struct Measuring;

impl State for Idle {

}

impl State for Measuring {

}

} // verus!
