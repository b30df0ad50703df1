//! Capability traits for the bus and the delay source.
//!
//! The driver core never touches hardware itself: the caller supplies a
//! transport that can move bytes to and from a bus address, and a delay
//! source that can pause for a number of milliseconds. Every command the
//! driver issues is a fixed write/wait/read shape built from these two
//! capabilities, so the same sequence logic serves any execution
//! environment that can provide them.

use vstd::prelude::*;

use crate::error::I2cErrorKind;

verus! {

/// A bus transport: writes and reads raw bytes at a device address.
///
/// A faulty transaction is reported as an [`I2cErrorKind`] classified by
/// the transport; the driver carries it through without interpreting it.
pub trait Transport {
    /// Write all of `bytes` to the device at `address`.
    fn write(&mut self, address: u8, bytes: &Vec<u8>) -> (r: Result<(), I2cErrorKind>);

    /// Fill all of `buffer` with bytes read from the device at `address`.
    ///
    /// The buffer's length tells the transport how many bytes to read and
    /// is never changed.
    fn read(&mut self, address: u8, buffer: &mut Vec<u8>) -> (r: Result<(), I2cErrorKind>)
        ensures
            final(buffer)@.len() == old(buffer)@.len(),
    ;
}

/// A delay source: pauses the caller for a duration.
///
/// Whether the pause blocks a thread or suspends a task is up to the
/// implementation; the driver only requires that the time passes before
/// the call returns.
pub trait Delay {
    /// Pause for at least `milliseconds` milliseconds.
    fn delay_ms(&mut self, milliseconds: u32);
}

} // verus!
