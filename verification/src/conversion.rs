//! Conversions between raw sensor words and physical quantities.
//!
//! Raw sample words map to quantities by the device's fixed formulas:
//! `celsius = -45 + 175 * word / 65536`, `percent = 100 * word / 65536`,
//! while CO₂ concentration, pressure and altitude words carry whole
//! parts-per-million, hectopascals and meters directly. Because the
//! quantity types store their values scaled by the formulas' divisor
//! (see [`crate::sample`]), every conversion here is exact.
//!
//! Quantity-to-word conversions truncate toward zero and saturate at the
//! 16-bit range, except the temperature-offset word, which rounds to the
//! nearest representable word before saturating.

use vstd::prelude::*;

use vstd::arithmetic::div_mod::lemma_fundamental_div_mod_converse;

use crate::sample::Altitude;
use crate::sample::Co2;
use crate::sample::Humidity;
use crate::sample::Pressure;
use crate::sample::Sample;
use crate::sample::Temperature;

verus! {

/// A value saturated to the range of a 16-bit word.
pub open spec fn spec_clamp_word(value: int) -> u16 {
    if value < 0 {
        0
    } else if value > 0xffff {
        0xffff
    } else {
        value as u16
    }
}

/// The 48-bit serial number carried by three words, most significant first.
pub open spec fn spec_words_to_serial_number(word0: u16, word1: u16, word2: u16) -> u64 {
    (word0 * 0x1_0000_0000 + word1 * 0x1_0000 + word2) as u64
}

/// The temperature encoded by a raw sample word:
/// `celsius = -45 + 175 * word / 65536`.
pub open spec fn spec_word_to_temperature(word: u16) -> Temperature {
    Temperature { scaled_celsius: (175 * word - 45 * 65536) as i32 }
}

/// The temperature offset encoded by a word: `celsius = 175 * word / 65536`.
pub open spec fn spec_word_to_temperature_offset(word: u16) -> Temperature {
    Temperature { scaled_celsius: (175 * word) as i32 }
}

/// The word encoding a temperature offset: `65536 * celsius / 175`, rounded
/// to the nearest word and saturated. The divisor is odd, so no value lies
/// exactly between two words and rounding is unambiguous.
pub open spec fn spec_temperature_offset_to_word(offset: Temperature) -> u16 {
    spec_clamp_word((offset.scaled_celsius + 87) / 175)
}

/// The humidity encoded by a raw sample word: `percent = 100 * word / 65536`.
pub open spec fn spec_word_to_humidity(word: u16) -> Humidity {
    Humidity { scaled_percent: (100 * word) as i32 }
}

/// The altitude encoded by a word: the word is the altitude in meters.
pub open spec fn spec_word_to_altitude(word: u16) -> Altitude {
    Altitude { meter: word as i32 }
}

/// The word encoding an altitude: its meters, truncated and saturated.
pub open spec fn spec_altitude_to_word(altitude: Altitude) -> u16 {
    spec_clamp_word(altitude.meter as int)
}

/// The word encoding an ambient pressure: its hectopascals, truncated and
/// saturated.
pub open spec fn spec_ambient_pressure_to_word(pressure: Pressure) -> u16 {
    spec_clamp_word(pressure.hectopascal as int)
}

/// The CO₂ concentration encoded by a signed word, in parts per million.
pub open spec fn spec_signed_word_to_co2(word: i16) -> Co2 {
    Co2 { ppm: word as i32 }
}

/// The word encoding a CO₂ concentration: its parts per million, truncated
/// and saturated.
pub open spec fn spec_co2_to_word(co2: Co2) -> u16 {
    spec_clamp_word(co2.ppm as int)
}

/// The sample carried by three raw measurement words: CO₂ concentration,
/// temperature, humidity.
pub open spec fn spec_words_to_sample(word0: u16, word1: u16, word2: u16) -> Sample {
    Sample {
        co2: Co2 { ppm: word0 as i32 },
        temperature: spec_word_to_temperature(word1),
        humidity: spec_word_to_humidity(word2),
    }
}

/// Whether a data-ready status word reports data. Only the low 11 bits
/// carry the status; the upper bits are reserved and may be set without
/// indicating readiness.
pub open spec fn spec_data_ready(word: u16) -> bool {
    word & 0x07ff != 0
}

/// Whether a self-test response word reports success: zero means no
/// malfunction was detected.
pub open spec fn spec_self_test_passed(word: u16) -> bool {
    word == 0
}

/// Whether an automatic self-calibration status word reports it enabled:
/// only the lowest bit carries the status.
pub open spec fn spec_self_calibration_enabled(word: u16) -> bool {
    word & 1 != 0
}

/// The word encoding an automatic self-calibration setting.
pub open spec fn spec_self_calibration_to_word(enabled: bool) -> u16 {
    if enabled {
        1
    } else {
        0
    }
}

/// The correction reported by a forced-recalibration response word: 0xffff
/// means the recalibration failed; any other word carries the correction in
/// parts per million, offset by 0x8000.
pub open spec fn spec_recalibration_correction(word: u16) -> Option<Co2> {
    if word == 0xffff {
        None
    } else {
        Some((Co2 { ppm: (word - 0x8000) as i32 }))
    }
}

/// Saturate a value to the range of a 16-bit word.
fn clamp_word(value: i32) -> (r: u16)
    ensures
        r == spec_clamp_word(value as int),
{
    if value < 0 {
        0
    } else if value > 0xffff {
        0xffff
    } else {
        value as u16
    }
}

/// Convert three words to a serial number.
pub fn words_to_serial_number(word0: u16, word1: u16, word2: u16) -> (r: u64)
    ensures
        r == spec_words_to_serial_number(word0, word1, word2),
        r <= 0xffff_ffff_ffff,
{
    (word0 as u64) * 0x1_0000_0000 + (word1 as u64) * 0x1_0000 + (word2 as u64)
}

/// Convert three measurement words to a sample.
pub fn words_to_sample(word0: u16, word1: u16, word2: u16) -> (r: Sample)
    ensures
        r == spec_words_to_sample(word0, word1, word2),
{
    let co2 = Co2 { ppm: word0 as i32 };
    let temperature = word_to_temperature(word1);
    let humidity = word_to_humidity(word2);

    Sample { co2, temperature, humidity }
}

/// Convert a word to a humidity value.
pub fn word_to_humidity(word: u16) -> (r: Humidity)
    ensures
        r == spec_word_to_humidity(word),
{
    Humidity { scaled_percent: 100 * (word as i32) }
}

/// Convert a word to an altitude value.
pub fn word_to_altitude(word: u16) -> (r: Altitude)
    ensures
        r == spec_word_to_altitude(word),
{
    Altitude { meter: word as i32 }
}

/// Convert an altitude value to a word.
pub fn altitude_to_word(altitude: Altitude) -> (r: u16)
    ensures
        r == spec_altitude_to_word(altitude),
{
    clamp_word(altitude.meter)
}

/// Convert a word to a temperature offset value.
pub fn word_to_temperature_offset(word: u16) -> (r: Temperature)
    ensures
        r == spec_word_to_temperature_offset(word),
{
    Temperature { scaled_celsius: 175 * (word as i32) }
}

/// Convert a temperature offset value to a word.
pub fn temperature_offset_to_word(temperature_offset: Temperature) -> (r: u16)
    ensures
        r == spec_temperature_offset_to_word(temperature_offset),
{
    if temperature_offset.scaled_celsius < 0 {
        0
    } else {
        let word = ((temperature_offset.scaled_celsius as i64) + 87) / 175;
        if word > 0xffff {
            0xffff
        } else {
            word as u16
        }
    }
}

/// Convert a word to a temperature value.
pub fn word_to_temperature(word: u16) -> (r: Temperature)
    ensures
        r == spec_word_to_temperature(word),
{
    Temperature { scaled_celsius: 175 * (word as i32) - 45 * 65536 }
}

/// Convert an ambient pressure value to a word.
pub fn ambient_pressure_to_word(ambient_pressure: Pressure) -> (r: u16)
    ensures
        r == spec_ambient_pressure_to_word(ambient_pressure),
{
    clamp_word(ambient_pressure.hectopascal)
}

/// Convert a signed word to a CO₂ value.
pub fn signed_word_to_co2(word: i16) -> (r: Co2)
    ensures
        r == spec_signed_word_to_co2(word),
{
    Co2 { ppm: word as i32 }
}

/// Convert a CO₂ value to a word.
pub fn co2_to_word(co2: Co2) -> (r: u16)
    ensures
        r == spec_co2_to_word(co2),
{
    clamp_word(co2.ppm)
}

/// Interpret a data-ready status word.
pub fn data_ready_from_word(word: u16) -> (r: bool)
    ensures
        r == spec_data_ready(word),
{
    let masked = word & 0b0000_0111_1111_1111;
    masked != 0
}

/// Interpret a self-test response word.
pub fn self_test_passed_from_word(word: u16) -> (r: bool)
    ensures
        r == spec_self_test_passed(word),
{
    word == 0
}

/// Interpret an automatic self-calibration status word.
pub fn self_calibration_enabled_from_word(word: u16) -> (r: bool)
    ensures
        r == spec_self_calibration_enabled(word),
{
    word & 0b0000_0001 != 0
}

/// Encode an automatic self-calibration setting as a word.
pub fn self_calibration_enabled_to_word(enabled: bool) -> (r: u16)
    ensures
        r == spec_self_calibration_to_word(enabled),
{
    if enabled {
        1
    } else {
        0
    }
}

/// Interpret a forced-recalibration response word.
pub fn recalibration_correction_from_word(word: u16) -> (r: Option<Co2>)
    ensures
        r == spec_recalibration_correction(word),
{
    if word == 0xffff {
        None
    } else {
        Some(Co2 { ppm: (word as i32) - 0x8000 })
    }
}

/// Encoding a temperature offset undoes decoding one: every word survives
/// the round trip through the offset quantity unchanged.
pub proof fn lemma_temperature_offset_word_round_trip(word: u16)
    ensures
        spec_temperature_offset_to_word(spec_word_to_temperature_offset(word)) == word,
{
    let scaled = 175 * (word as int);
    lemma_fundamental_div_mod_converse(scaled + 87, 175, word as int, 87);
}

} // verus!
