//! Checksum computation and verification.
//!
//! Every 16-bit word on the wire is followed by an 8-bit CRC over its two
//! payload bytes: polynomial 0x31, initial register 0xff, no reflection and
//! no final xor. The sensor validates the checksum on writes and the driver
//! validates it on reads.

use vstd::prelude::*;

use crate::error::Error;

verus! {

/// Polynomial for CRC computation.
pub const CRC8_POLYNOMIAL: u8 = 0x31;

/// Initial register value for CRC computation.
pub const CRC8_INIT: u8 = 0xff;

/// One round of the CRC register update: shift left, folding the polynomial
/// in when the top bit was set.
pub open spec fn crc8_round(crc: u8) -> u8 {
    if crc & 0x80 != 0 {
        (crc << 1) ^ CRC8_POLYNOMIAL
    } else {
        crc << 1
    }
}

/// The CRC register after `n` rounds.
pub open spec fn crc8_rounds(crc: u8, n: nat) -> u8
    decreases n,
{
    if n == 0 {
        crc
    } else {
        crc8_round(crc8_rounds(crc, (n - 1) as nat))
    }
}

/// The CRC register after absorbing one byte: xor it in, then run 8 rounds.
pub open spec fn crc8_feed(crc: u8, byte: u8) -> u8 {
    crc8_rounds(crc ^ byte, 8)
}

/// The checksum of a 2-byte payload.
pub open spec fn spec_checksum(byte0: u8, byte1: u8) -> u8 {
    crc8_feed(crc8_feed(CRC8_INIT, byte0), byte1)
}

/// What `verify` returns for a payload and an expected checksum.
pub open spec fn spec_verify(byte0: u8, byte1: u8, expected: u8) -> Result<(), Error> {
    let actual = spec_checksum(byte0, byte1);
    if actual == expected {
        Ok(())
    } else {
        Err((Error::ChecksumMismatch { actual, expected }))
    }
}

/// Absorb one byte into the CRC register.
fn feed(crc: u8, byte: u8) -> (r: u8)
    ensures
        r == crc8_feed(crc, byte),
{
    let mut current: u8 = crc ^ byte;
    for i in 0..8
        invariant
            current == crc8_rounds(crc ^ byte, i as nat),
    {
        if current & 0x80 != 0x00 {
            current = (current << 1) ^ CRC8_POLYNOMIAL;
        } else {
            current = current << 1;
        }
    }
    current
}

/// Compute the checksum of a 2-byte buffer.
pub fn compute(data: [u8; 2]) -> (r: u8)
    ensures
        r == spec_checksum(data[0], data[1]),
{
    let crc = feed(CRC8_INIT, data[0]);
    feed(crc, data[1])
}

/// Verify that a 2-byte buffer has a given checksum.
///
/// Succeeds exactly when the computed checksum equals `expected`; otherwise
/// reports the mismatch with both values.
pub fn verify(data: [u8; 2], expected: u8) -> (r: Result<(), Error>)
    ensures
        r == spec_verify(data[0], data[1], expected),
        r is Ok <==> spec_checksum(data[0], data[1]) == expected,
{
    let actual = compute(data);
    if actual == expected {
        Ok(())
    } else {
        Err(Error::ChecksumMismatch { actual, expected })
    }
}

/// A payload always verifies against its own checksum, and never against the
/// bitwise complement of its own checksum.
pub proof fn lemma_verify_of_computed(byte0: u8, byte1: u8)
    ensures
        spec_verify(byte0, byte1, spec_checksum(byte0, byte1)) == Ok::<(), Error>(()),
        spec_verify(byte0, byte1, spec_checksum(byte0, byte1) ^ 0xff) matches Err(e)
            && e == (Error::ChecksumMismatch {
                actual: spec_checksum(byte0, byte1),
                expected: spec_checksum(byte0, byte1) ^ 0xff,
            }),
{
    let c = spec_checksum(byte0, byte1);
    assert(c ^ 0xff != c) by (bit_vector);
}

} // verus!
