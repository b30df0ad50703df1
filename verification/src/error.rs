//! Error types.
//!
//! There are only two kinds of failure: a received word whose checksum did
//! not match, and a fault reported by the underlying bus. Neither is retried
//! internally; every failure surfaces immediately to the caller.

use vstd::prelude::*;

verus! {

/// The kind of fault reported by the bus transport.
///
/// The transport capability classifies the fault; the driver carries it
/// through without interpreting it further.
#[derive(Clone, Copy, Debug, PartialEq, Eq, Structural)]
pub enum I2cErrorKind {
    /// A bus error occurred, e.g. a misplaced start or stop condition.
    Bus,
    /// The bus arbitration was lost.
    ArbitrationLoss,
    /// The device did not acknowledge its address.
    NoAcknowledgeAddress,
    /// The device did not acknowledge the data.
    NoAcknowledgeData,
    /// The device did not acknowledge, and the source is unknown.
    NoAcknowledgeUnknown,
    /// The peripheral receive buffer was overrun.
    Overrun,
    /// A different error occurred.
    Other,
}

/// An error.
#[derive(Clone, Copy, Debug, PartialEq, Eq, Structural)]
pub enum Error {
    /// A checksum was different than expected.
    ChecksumMismatch {
        /// Actual checksum.
        actual: u8,
        /// Expected checksum.
        expected: u8,
    },
    /// An error in the underlying I²C transport.
    I2c(I2cErrorKind),
}

} // verus!
