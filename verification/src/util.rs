//! Decoding of checksummed words from raw response buffers.

use vstd::prelude::*;

use crate::checksum::spec_checksum;
use crate::checksum::verify;
use crate::error::Error;

verus! {

/// The word carried by a 3-byte group: high byte, then low byte.
pub open spec fn spec_word(byte0: u8, byte1: u8) -> u16 {
    (byte0 * 256 + byte1) as u16
}

/// What decoding a 3-byte group yields: the word if the third byte is the
/// payload's checksum, and the mismatch otherwise.
pub open spec fn spec_buffer_to_word(byte0: u8, byte1: u8, byte2: u8) -> Result<u16, Error> {
    if spec_checksum(byte0, byte1) == byte2 {
        Ok(spec_word(byte0, byte1))
    } else {
        Err((Error::ChecksumMismatch { actual: spec_checksum(byte0, byte1), expected: byte2 }))
    }
}

/// What decoding a 9-byte buffer yields: the three words if every group's
/// checksum matches, and the first mismatch otherwise.
pub open spec fn spec_buffer_to_three_words(buffer: Seq<u8>) -> Result<(u16, u16, u16), Error>
    recommends
        buffer.len() == 9,
{
    match spec_buffer_to_word(buffer[0], buffer[1], buffer[2]) {
        Err(e) => Err(e),
        Ok(word0) => match spec_buffer_to_word(buffer[3], buffer[4], buffer[5]) {
            Err(e) => Err(e),
            Ok(word1) => match spec_buffer_to_word(buffer[6], buffer[7], buffer[8]) {
                Err(e) => Err(e),
                Ok(word2) => Ok((word0, word1, word2)),
            },
        },
    }
}

/// Convert a 3-byte group to a word, verifying its checksum.
pub fn buffer_to_word(byte0: u8, byte1: u8, byte2: u8) -> (r: Result<u16, Error>)
    ensures
        r == spec_buffer_to_word(byte0, byte1, byte2),
{
    proof {
        assert((byte0 as u16) << 8 == byte0 * 256) by (bit_vector);
    }
    let word = ((byte0 as u16) << 8) + (byte1 as u16);
    match verify([byte0, byte1], byte2) {
        Ok(()) => Ok(word),
        Err(e) => Err(e),
    }
}

/// Convert a 9-byte buffer to three words, verifying each group's checksum
/// independently. A mismatch in any group rejects the whole buffer.
pub fn buffer_to_three_words(buffer: [u8; 9]) -> (r: Result<(u16, u16, u16), Error>)
    ensures
        r == spec_buffer_to_three_words(buffer@),
{
    let word0 = match buffer_to_word(buffer[0], buffer[1], buffer[2]) {
        Ok(word) => word,
        Err(e) => {
            return Err(e);
        },
    };
    let word1 = match buffer_to_word(buffer[3], buffer[4], buffer[5]) {
        Ok(word) => word,
        Err(e) => {
            return Err(e);
        },
    };
    let word2 = match buffer_to_word(buffer[6], buffer[7], buffer[8]) {
        Ok(word) => word,
        Err(e) => {
            return Err(e);
        },
    };
    Ok((word0, word1, word2))
}

} // verus!
