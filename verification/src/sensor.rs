//! The typed sensor handle.
//!
//! A [`Scd4x`] owns the bus transport, the device address and the delay
//! source, and carries its operating mode — [`Idle`] or [`Measuring`] — in
//! its type. Commands legal only in one mode are defined only on the
//! handle with the matching marker, so a call sequence that compiles is a
//! legal mode-transition sequence, and an illegal call is a type error
//! rather than a runtime failure. Mode-changing commands consume the
//! handle and return one in the new mode.

use vstd::prelude::*;

use crate::command::Command;
use crate::command::execute_read_three_words;
use crate::command::execute_read_word;
use crate::command::execute_send_command;
use crate::command::execute_send_command_and_fetch_result;
use crate::command::execute_write_word;
use crate::constants::DEFAULT_ADDRESS;
use crate::conversion::altitude_to_word;
use crate::conversion::ambient_pressure_to_word;
use crate::conversion::co2_to_word;
use crate::conversion::data_ready_from_word;
use crate::conversion::recalibration_correction_from_word;
use crate::conversion::self_calibration_enabled_from_word;
use crate::conversion::self_calibration_enabled_to_word;
use crate::conversion::self_test_passed_from_word;
use crate::conversion::spec_recalibration_correction;
use crate::conversion::spec_word_to_temperature_offset;
use crate::conversion::spec_words_to_sample;
use crate::conversion::temperature_offset_to_word;
use crate::conversion::word_to_altitude;
use crate::conversion::word_to_temperature_offset;
use crate::conversion::words_to_sample;
use crate::conversion::words_to_serial_number;
use crate::error::Error;
use crate::sample::Altitude;
use crate::sample::Co2;
use crate::sample::Pressure;
use crate::sample::Sample;
use crate::sample::Temperature;
use crate::state::Idle;
use crate::state::Measuring;
use crate::state::State;
use crate::transport::Delay;
use crate::transport::Transport;

verus! {

/// Interface to an SCD4x sensor over I²C.
///
/// The `S` parameter is the operating mode of the sensor as this driver
/// knows it: commands are defined only on handles in the mode that allows
/// them.
pub struct Scd4x<B, D, S> {
    /// Bus transport.
    i2c: B,
    /// Device address on the bus.
    address: u8,
    /// Delay source.
    delay: D,
    /// Marker for the operating mode.
    state: S,
}

impl<B, D, S> Scd4x<B, D, S> {
    /// The device address this handle talks to.
    pub closed spec fn spec_address(self) -> u8 {
        self.address
    }

    /// The bus transport this handle owns.
    pub closed spec fn spec_bus(self) -> B {
        self.i2c
    }

    /// The delay source this handle owns.
    pub closed spec fn spec_delay(self) -> D {
        self.delay
    }
}

impl<B: Transport, D: Delay> Scd4x<B, D, Idle> {
    /// Create a new idle sensor handle from a bus transport and a delay
    /// source, at the sensor's default address ([`DEFAULT_ADDRESS`]).
    pub fn new(i2c: B, delay: D) -> (r: Self)
        ensures
            r.spec_address() == DEFAULT_ADDRESS,
            r.spec_bus() == i2c,
            r.spec_delay() == delay,
    {
        Self::new_with_address(i2c, DEFAULT_ADDRESS, delay)
    }

    /// Create a new idle sensor handle from a bus transport and a delay
    /// source, at a custom address.
    pub fn new_with_address(i2c: B, address: u8, delay: D) -> (r: Self)
        ensures
            r.spec_address() == address,
            r.spec_bus() == i2c,
            r.spec_delay() == delay,
    {
        Self { i2c, address, delay, state: Idle }
    }

    /// Start periodic measurement, with a 5-second signal-update interval.
    ///
    /// On success the sensor is measuring and the returned handle gives
    /// access to the measuring-mode commands.
    ///
    /// # Errors
    ///
    /// Returns an error if it cannot communicate with the sensor.
    pub fn start_periodic_measurement(self) -> (r: Result<Scd4x<B, D, Measuring>, Error>)
        ensures
            r matches Ok(sensor) ==> sensor.spec_address() == self.spec_address(),
            r matches Err(e) ==> e is I2c,
    {
        let Scd4x { mut i2c, address, mut delay, .. } = self;
        execute_send_command(&mut i2c, &mut delay, address, Command::StartPeriodicMeasurement)?;

        Ok(Scd4x { i2c, address, delay, state: Measuring })
    }

    /// Set the temperature offset used to compensate self-heating.
    ///
    /// # Errors
    ///
    /// Returns an error if it cannot communicate with the sensor.
    pub fn set_temperature_offset(&mut self, temperature_offset: Temperature) -> (r: Result<
        (),
        Error,
    >)
        ensures
            final(self).spec_address() == old(self).spec_address(),
            r matches Err(e) ==> e is I2c,
    {
        let word = temperature_offset_to_word(temperature_offset);
        execute_write_word(
            &mut self.i2c,
            &mut self.delay,
            self.address,
            Command::SetTemperatureOffset,
            word,
        )
    }

    /// Get the configured temperature offset.
    ///
    /// Whatever word the sensor returned, the result is that word decoded
    /// by the offset formula `celsius = 175 * word / 65536`.
    ///
    /// # Errors
    ///
    /// Returns an error if it cannot communicate with the sensor.
    pub fn get_temperature_offset(&mut self) -> (r: Result<Temperature, Error>)
        ensures
            final(self).spec_address() == old(self).spec_address(),
            r matches Ok(offset) ==> exists|word: u16|
                offset == spec_word_to_temperature_offset(word),
            r matches Ok(offset) ==> 0 <= offset.scaled_celsius <= 175 * 0xffff,
    {
        let word = execute_read_word(
            &mut self.i2c,
            &mut self.delay,
            self.address,
            Command::GetTemperatureOffset,
        )?;
        let offset = word_to_temperature_offset(word);
        proof {
            assert(offset == spec_word_to_temperature_offset(word));
        }
        Ok(offset)
    }

    /// Set the sensor altitude used for pressure compensation.
    ///
    /// # Errors
    ///
    /// Returns an error if it cannot communicate with the sensor.
    pub fn set_sensor_altitude(&mut self, sensor_altitude: Altitude) -> (r: Result<(), Error>)
        ensures
            final(self).spec_address() == old(self).spec_address(),
            r matches Err(e) ==> e is I2c,
    {
        let word = altitude_to_word(sensor_altitude);
        execute_write_word(
            &mut self.i2c,
            &mut self.delay,
            self.address,
            Command::SetSensorAltitude,
            word,
        )
    }

    /// Get the configured sensor altitude.
    ///
    /// The altitude word carries whole meters, so any successfully decoded
    /// altitude lies in the 16-bit range.
    ///
    /// # Errors
    ///
    /// Returns an error if it cannot communicate with the sensor.
    pub fn get_sensor_altitude(&mut self) -> (r: Result<Altitude, Error>)
        ensures
            final(self).spec_address() == old(self).spec_address(),
            r matches Ok(altitude) ==> 0 <= altitude.meter <= 0xffff,
    {
        let word = execute_read_word(
            &mut self.i2c,
            &mut self.delay,
            self.address,
            Command::GetSensorAltitude,
        )?;
        Ok(word_to_altitude(word))
    }

    /// Perform forced recalibration against a reference concentration.
    ///
    /// Returns the correction the sensor applied, or `None` if the
    /// recalibration failed; whatever word the sensor returned, the result
    /// is that word decoded as a forced-recalibration response.
    ///
    /// # Errors
    ///
    /// Returns an error if it cannot communicate with the sensor.
    pub fn perform_forced_recalibration(&mut self, co2: Co2) -> (r: Result<Option<Co2>, Error>)
        ensures
            final(self).spec_address() == old(self).spec_address(),
            r matches Ok(correction) ==> exists|word: u16|
                correction == spec_recalibration_correction(word),
    {
        let word = co2_to_word(co2);
        let response = execute_send_command_and_fetch_result(
            &mut self.i2c,
            &mut self.delay,
            self.address,
            Command::PerformForcedRecalibration,
            word,
        )?;
        let correction = recalibration_correction_from_word(response);
        proof {
            assert(correction == spec_recalibration_correction(response));
        }
        Ok(correction)
    }

    /// Set whether automatic self-calibration is enabled.
    ///
    /// # Errors
    ///
    /// Returns an error if it cannot communicate with the sensor.
    pub fn set_automatic_self_calibration_enabled(&mut self, enabled: bool) -> (r: Result<
        (),
        Error,
    >)
        ensures
            final(self).spec_address() == old(self).spec_address(),
            r matches Err(e) ==> e is I2c,
    {
        let word = self_calibration_enabled_to_word(enabled);
        execute_write_word(
            &mut self.i2c,
            &mut self.delay,
            self.address,
            Command::SetAutomaticSelfCalibrationEnabled,
            word,
        )
    }

    /// Query whether automatic self-calibration is enabled.
    ///
    /// # Errors
    ///
    /// Returns an error if it cannot communicate with the sensor.
    pub fn get_automatic_self_calibration_enabled(&mut self) -> (r: Result<bool, Error>)
        ensures
            final(self).spec_address() == old(self).spec_address(),
    {
        let word = execute_read_word(
            &mut self.i2c,
            &mut self.delay,
            self.address,
            Command::GetAutomaticSelfCalibrationEnabled,
        )?;
        Ok(self_calibration_enabled_from_word(word))
    }

    /// Start low-power periodic measurement.
    ///
    /// # Errors
    ///
    /// Returns an error if it cannot communicate with the sensor.
    pub fn start_low_power_periodic_measurement(self) -> (r: Result<
        Scd4x<B, D, Measuring>,
        Error,
    >)
        ensures
            r matches Ok(sensor) ==> sensor.spec_address() == self.spec_address(),
            r matches Err(e) ==> e is I2c,
    {
        let Scd4x { mut i2c, address, mut delay, .. } = self;
        execute_send_command(&mut i2c, &mut delay, address, Command::StartLowPowerPeriodicMeasurement)?;

        Ok(Scd4x { i2c, address, delay, state: Measuring })
    }

    /// Persist settings to EEPROM.
    ///
    /// # Errors
    ///
    /// Returns an error if it cannot communicate with the sensor.
    pub fn persist_settings(&mut self) -> (r: Result<(), Error>)
        ensures
            final(self).spec_address() == old(self).spec_address(),
            r matches Err(e) ==> e is I2c,
    {
        execute_send_command(&mut self.i2c, &mut self.delay, self.address, Command::PersistSettings)
    }

    /// Obtain the serial number: a 48-bit unique number that identifies
    /// the chip.
    ///
    /// # Errors
    ///
    /// Returns an error if it cannot communicate with the sensor.
    pub fn get_serial_number(&mut self) -> (r: Result<u64, Error>)
        ensures
            final(self).spec_address() == old(self).spec_address(),
            r matches Ok(serial_number) ==> serial_number <= 0xffff_ffff_ffff,
    {
        let (word0, word1, word2) = execute_read_three_words(
            &mut self.i2c,
            &mut self.delay,
            self.address,
            Command::GetSerialNumber,
        )?;
        Ok(words_to_serial_number(word0, word1, word2))
    }

    /// Perform a self-test; the result is whether the sensor reported no
    /// malfunction.
    ///
    /// # Errors
    ///
    /// Returns an error if it cannot communicate with the sensor.
    pub fn perform_self_test(&mut self) -> (r: Result<bool, Error>)
        ensures
            final(self).spec_address() == old(self).spec_address(),
    {
        let word = execute_read_word(
            &mut self.i2c,
            &mut self.delay,
            self.address,
            Command::PerformSelfTest,
        )?;
        Ok(self_test_passed_from_word(word))
    }

    /// Perform a factory reset, erasing settings and calibration history.
    ///
    /// # Errors
    ///
    /// Returns an error if it cannot communicate with the sensor.
    pub fn perform_factory_reset(&mut self) -> (r: Result<(), Error>)
        ensures
            final(self).spec_address() == old(self).spec_address(),
            r matches Err(e) ==> e is I2c,
    {
        execute_send_command(
            &mut self.i2c,
            &mut self.delay,
            self.address,
            Command::PerformFactoryReset,
        )
    }

    /// Reinitialize the sensor, restoring user settings from EEPROM.
    ///
    /// If reinitialization does not succeed, the sensor should be
    /// power-cycled.
    ///
    /// # Errors
    ///
    /// Returns an error if it cannot communicate with the sensor.
    pub fn reinit(&mut self) -> (r: Result<(), Error>)
        ensures
            final(self).spec_address() == old(self).spec_address(),
            r matches Err(e) ==> e is I2c,
    {
        execute_send_command(&mut self.i2c, &mut self.delay, self.address, Command::Reinitialize)
    }

    /// Take a single-shot measurement.
    ///
    /// # Errors
    ///
    /// Returns an error if it cannot communicate with the sensor.
    pub fn measure_single_shot(self) -> (r: Result<Scd4x<B, D, Measuring>, Error>)
        ensures
            r matches Ok(sensor) ==> sensor.spec_address() == self.spec_address(),
            r matches Err(e) ==> e is I2c,
    {
        let Scd4x { mut i2c, address, mut delay, .. } = self;
        execute_send_command(&mut i2c, &mut delay, address, Command::MeasureSingleShot)?;

        Ok(Scd4x { i2c, address, delay, state: Measuring })
    }

    /// Take a single-shot measurement of humidity and temperature only.
    ///
    /// # Errors
    ///
    /// Returns an error if it cannot communicate with the sensor.
    pub fn measure_single_shot_rht_only(self) -> (r: Result<Scd4x<B, D, Measuring>, Error>)
        ensures
            r matches Ok(sensor) ==> sensor.spec_address() == self.spec_address(),
            r matches Err(e) ==> e is I2c,
    {
        let Scd4x { mut i2c, address, mut delay, .. } = self;
        execute_send_command(&mut i2c, &mut delay, address, Command::MeasureSingleShotRhtOnly)?;

        Ok(Scd4x { i2c, address, delay, state: Measuring })
    }
}

impl<B: Transport, D: Delay> Scd4x<B, D, Measuring> {
    /// Create a new sensor handle already in measuring mode, at the
    /// sensor's default address, for callers that know the sensor is
    /// already measuring (e.g. after a warm restart).
    pub fn new_in_measuring(i2c: B, delay: D) -> (r: Self)
        ensures
            r.spec_address() == DEFAULT_ADDRESS,
            r.spec_bus() == i2c,
            r.spec_delay() == delay,
    {
        Self::new_in_measuring_with_address(i2c, DEFAULT_ADDRESS, delay)
    }

    /// Create a new sensor handle already in measuring mode, at a custom
    /// address.
    pub fn new_in_measuring_with_address(i2c: B, address: u8, delay: D) -> (r: Self)
        ensures
            r.spec_address() == address,
            r.spec_bus() == i2c,
            r.spec_delay() == delay,
    {
        Self { i2c, address, delay, state: Measuring }
    }

    /// Read a measurement from the sensor.
    ///
    /// Whatever words the sensor returned, the sample is those words
    /// decoded by the fixed conversion formulas, so its temperature lies
    /// in [-45, 130) °C, its humidity in [0, 100) % and its CO₂
    /// concentration in the 16-bit range.
    ///
    /// # Errors
    ///
    /// Returns an error if it cannot communicate with the sensor.
    pub fn read_measurement(&mut self) -> (r: Result<Sample, Error>)
        ensures
            final(self).spec_address() == old(self).spec_address(),
            r matches Ok(sample) ==> exists|word0: u16, word1: u16, word2: u16|
                sample == spec_words_to_sample(word0, word1, word2),
            r matches Ok(sample) ==> {
                &&& 0 <= sample.co2.ppm <= 0xffff
                &&& -45 * 65536 <= sample.temperature.scaled_celsius < 130 * 65536
                &&& 0 <= sample.humidity.scaled_percent < 100 * 65536
            },
    {
        let (word0, word1, word2) = execute_read_three_words(
            &mut self.i2c,
            &mut self.delay,
            self.address,
            Command::ReadMeasurement,
        )?;
        let sample = words_to_sample(word0, word1, word2);
        proof {
            assert(sample == spec_words_to_sample(word0, word1, word2));
        }
        Ok(sample)
    }

    /// Query whether a sample is available to be read.
    ///
    /// # Errors
    ///
    /// Returns an error if it cannot communicate with the sensor.
    pub fn get_data_ready_status(&mut self) -> (r: Result<bool, Error>)
        ensures
            final(self).spec_address() == old(self).spec_address(),
    {
        let word = execute_read_word(
            &mut self.i2c,
            &mut self.delay,
            self.address,
            Command::GetDataReadyStatus,
        )?;
        Ok(data_ready_from_word(word))
    }
}

impl<B: Transport, D: Delay, S: State> Scd4x<B, D, S> {
    /// Release the bus transport, consuming the handle.
    pub fn release(self) -> (r: B)
        ensures
            r == self.spec_bus(),
    {
        self.i2c
    }

    /// Stop periodic measurement, returning the sensor to idle. Callable
    /// in any mode.
    ///
    /// # Errors
    ///
    /// Returns an error if it cannot communicate with the sensor.
    pub fn stop_periodic_measurement(self) -> (r: Result<Scd4x<B, D, Idle>, Error>)
        ensures
            r matches Ok(sensor) ==> sensor.spec_address() == self.spec_address(),
            r matches Err(e) ==> e is I2c,
    {
        let Scd4x { mut i2c, address, mut delay, .. } = self;
        execute_send_command(&mut i2c, &mut delay, address, Command::StopPeriodicMeasurement)?;

        Ok(Scd4x { i2c, address, delay, state: Idle })
    }

    /// Set the ambient pressure used for pressure compensation. Callable
    /// in any mode.
    ///
    /// # Errors
    ///
    /// Returns an error if it cannot communicate with the sensor.
    pub fn set_ambient_pressure(&mut self, ambient_pressure: Pressure) -> (r: Result<(), Error>)
        ensures
            final(self).spec_address() == old(self).spec_address(),
            r matches Err(e) ==> e is I2c,
    {
        let word = ambient_pressure_to_word(ambient_pressure);
        execute_write_word(
            &mut self.i2c,
            &mut self.delay,
            self.address,
            Command::SetAmbientPressure,
            word,
        )
    }
}

} // verus!
