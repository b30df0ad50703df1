//! Driver core for the SCD4x family of CO₂/temperature/humidity sensors.
//!
//! The sensor is reached over a two-wire serial bus. Every operation is a
//! fixed write/wait/read shape: the driver sends a 16-bit register, waits the
//! command's worst-case duration, and (for reading commands) fetches words
//! that each carry an 8-bit checksum. This crate holds the bus-independent
//! logic: the checksum, the wire encoding and decoding, the conversions
//! between raw words and physical quantities, the command catalog, and a
//! typed sensor handle whose operating mode (idle or measuring) is part of
//! its type, so that commands issued in the wrong mode do not compile.
//!
//! The bus itself and the delay source are capabilities supplied by the
//! caller through the [`Transport`] and [`Delay`] traits.

mod checksum;
mod command;
mod constants;
mod conversion;
mod error;
mod sample;
mod sensor;
mod state;
mod transport;
mod util;

pub use checksum::compute;
pub use checksum::verify;
pub use command::Command;
pub use command::Sequence;
pub use command::command_request;
pub use command::write_word_request;
pub use constants::DEFAULT_ADDRESS;
pub use conversion::altitude_to_word;
pub use conversion::ambient_pressure_to_word;
pub use conversion::co2_to_word;
pub use conversion::data_ready_from_word;
pub use conversion::recalibration_correction_from_word;
pub use conversion::self_calibration_enabled_from_word;
pub use conversion::self_calibration_enabled_to_word;
pub use conversion::self_test_passed_from_word;
pub use conversion::signed_word_to_co2;
pub use conversion::temperature_offset_to_word;
pub use conversion::word_to_altitude;
pub use conversion::word_to_humidity;
pub use conversion::word_to_temperature;
pub use conversion::word_to_temperature_offset;
pub use conversion::words_to_sample;
pub use conversion::words_to_serial_number;
pub use error::Error;
pub use error::I2cErrorKind;
pub use sample::Altitude;
pub use sample::Co2;
pub use sample::Humidity;
pub use sample::Pressure;
pub use sample::QUANTITY_SCALE;
pub use sample::Sample;
pub use sample::Temperature;
pub use sample::altitude_from_meter;
pub use sample::co2_from_ppm;
pub use sample::hectopascal_from_pressure;
pub use sample::humidity_from_scaled_percent;
pub use sample::meter_from_altitude;
pub use sample::ppm_from_co2;
pub use sample::pressure_from_hectopascal;
pub use sample::scaled_celsius_from_temperature;
pub use sample::scaled_percent_from_humidity;
pub use sample::temperature_from_scaled_celsius;
pub use sensor::Scd4x;
pub use state::Idle;
pub use state::Measuring;
pub use state::State;
pub use transport::Delay;
pub use transport::Transport;
pub use util::buffer_to_three_words;
pub use util::buffer_to_word;
