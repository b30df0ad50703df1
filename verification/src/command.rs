//! The command catalog and the transaction sequences.
//!
//! Each supported operation is a fixed binding of a 16-bit register, a
//! worst-case wait duration, and one of five bus-interaction shapes
//! ([`Sequence`]). Every transaction starts by writing the register (and,
//! for writing commands, a checksummed payload word), then waits the
//! command's full duration, then — for reading commands — fetches the
//! response and verifies every received word's checksum. The wait is an
//! unconditional worst-case delay, not a polled ready signal.
//!
//! Detailed description of each command can be found in the device
//! datasheet.

use vstd::prelude::*;

use crate::checksum::compute;
use crate::checksum::spec_checksum;
use crate::error::Error;
use crate::transport::Delay;
use crate::transport::Transport;
use crate::util::buffer_to_three_words;
use crate::util::buffer_to_word;
use crate::util::spec_buffer_to_three_words;
use crate::util::spec_buffer_to_word;

verus! {

/// The five bus-interaction shapes a command can follow.
#[derive(Clone, Copy, Debug, PartialEq, Eq, Structural)]
pub enum Sequence {
    /// Write the register; wait. No payload, no response.
    SendCommand,
    /// Write the register and a checksummed payload word; wait; read one
    /// checksummed word back.
    SendCommandAndFetchResult,
    /// Write the register; wait; read one checksummed word.
    ReadWord,
    /// Write the register; wait; read three checksummed words.
    ReadThreeWords,
    /// Write the register and a checksummed payload word; wait.
    WriteWord,
}

/// A command to the sensor.
#[derive(Clone, Copy, Debug, PartialEq, Eq, Structural)]
pub enum Command {
    /// Restore user settings from EEPROM.
    Reinitialize,
    /// Read the 48-bit unique serial number.
    GetSerialNumber,
    /// Read the latest sample.
    ReadMeasurement,
    /// Start periodic measurement, with a 5-second signal-update interval.
    StartPeriodicMeasurement,
    /// Stop periodic measurement.
    StopPeriodicMeasurement,
    /// Read the temperature offset.
    GetTemperatureOffset,
    /// Write the temperature offset.
    SetTemperatureOffset,
    /// Read the configured sensor altitude.
    GetSensorAltitude,
    /// Write the configured sensor altitude.
    SetSensorAltitude,
    /// Write the ambient pressure.
    SetAmbientPressure,
    /// Start low-power periodic measurement.
    StartLowPowerPeriodicMeasurement,
    /// Query whether a sample is available to be read.
    GetDataReadyStatus,
    /// Run the built-in self-test.
    PerformSelfTest,
    /// Take a single-shot measurement.
    MeasureSingleShot,
    /// Take a single-shot measurement of humidity and temperature only.
    MeasureSingleShotRhtOnly,
    /// Persist settings to EEPROM.
    PersistSettings,
    /// Perform forced recalibration against a reference concentration.
    PerformForcedRecalibration,
    /// Query whether automatic self-calibration is enabled.
    GetAutomaticSelfCalibrationEnabled,
    /// Write whether automatic self-calibration is enabled.
    SetAutomaticSelfCalibrationEnabled,
    /// Restore factory defaults, erasing calibration history.
    PerformFactoryReset,
}

impl Command {
    /// The device-fixed register of the command.
    pub open spec fn spec_register(self) -> u16 {
        match self {
            Command::Reinitialize => 0x3646,
            Command::GetSerialNumber => 0x3682,
            Command::ReadMeasurement => 0xec05,
            Command::StartPeriodicMeasurement => 0x21b1,
            Command::StopPeriodicMeasurement => 0x3f86,
            Command::GetTemperatureOffset => 0x2318,
            Command::SetTemperatureOffset => 0x241d,
            Command::GetSensorAltitude => 0x2322,
            Command::SetSensorAltitude => 0x2427,
            Command::SetAmbientPressure => 0xe000,
            Command::StartLowPowerPeriodicMeasurement => 0x21ac,
            Command::GetDataReadyStatus => 0xe4b8,
            Command::PerformSelfTest => 0x3639,
            Command::MeasureSingleShot => 0x219d,
            Command::MeasureSingleShotRhtOnly => 0x2196,
            Command::PersistSettings => 0x3615,
            Command::PerformForcedRecalibration => 0x362f,
            Command::GetAutomaticSelfCalibrationEnabled => 0x2313,
            Command::SetAutomaticSelfCalibrationEnabled => 0x2416,
            Command::PerformFactoryReset => 0x3632,
        }
    }

    /// The worst-case duration of the command, in milliseconds.
    pub open spec fn spec_max_duration_ms(self) -> u32 {
        match self {
            Command::Reinitialize => 20,
            Command::GetSerialNumber => 1,
            Command::ReadMeasurement => 1,
            Command::StartPeriodicMeasurement => 0,
            Command::StopPeriodicMeasurement => 500,
            Command::GetTemperatureOffset => 1,
            Command::SetTemperatureOffset => 1,
            Command::GetSensorAltitude => 1,
            Command::SetSensorAltitude => 1,
            Command::SetAmbientPressure => 1,
            Command::StartLowPowerPeriodicMeasurement => 0,
            Command::GetDataReadyStatus => 1,
            Command::PerformSelfTest => 10000,
            Command::MeasureSingleShot => 5000,
            Command::MeasureSingleShotRhtOnly => 50,
            Command::PersistSettings => 800,
            Command::PerformForcedRecalibration => 400,
            Command::GetAutomaticSelfCalibrationEnabled => 1,
            Command::SetAutomaticSelfCalibrationEnabled => 1,
            Command::PerformFactoryReset => 1200,
        }
    }

    /// The bus-interaction shape of the command.
    pub open spec fn spec_sequence(self) -> Sequence {
        match self {
            Command::Reinitialize => Sequence::SendCommand,
            Command::GetSerialNumber => Sequence::ReadThreeWords,
            Command::ReadMeasurement => Sequence::ReadThreeWords,
            Command::StartPeriodicMeasurement => Sequence::SendCommand,
            Command::StopPeriodicMeasurement => Sequence::SendCommand,
            Command::GetTemperatureOffset => Sequence::ReadWord,
            Command::SetTemperatureOffset => Sequence::WriteWord,
            Command::GetSensorAltitude => Sequence::ReadWord,
            Command::SetSensorAltitude => Sequence::WriteWord,
            Command::SetAmbientPressure => Sequence::WriteWord,
            Command::StartLowPowerPeriodicMeasurement => Sequence::SendCommand,
            Command::GetDataReadyStatus => Sequence::ReadWord,
            Command::PerformSelfTest => Sequence::ReadWord,
            Command::MeasureSingleShot => Sequence::SendCommand,
            Command::MeasureSingleShotRhtOnly => Sequence::SendCommand,
            Command::PersistSettings => Sequence::SendCommand,
            Command::PerformForcedRecalibration => Sequence::SendCommandAndFetchResult,
            Command::GetAutomaticSelfCalibrationEnabled => Sequence::ReadWord,
            Command::SetAutomaticSelfCalibrationEnabled => Sequence::WriteWord,
            Command::PerformFactoryReset => Sequence::SendCommand,
        }
    }

    /// Return the I²C register of the command.
    pub fn register(&self) -> (r: u16)
        ensures
            r == self.spec_register(),
    {
        match self {
            Command::Reinitialize => 0x3646,
            Command::GetSerialNumber => 0x3682,
            Command::ReadMeasurement => 0xec05,
            Command::StartPeriodicMeasurement => 0x21b1,
            Command::StopPeriodicMeasurement => 0x3f86,
            Command::GetTemperatureOffset => 0x2318,
            Command::SetTemperatureOffset => 0x241d,
            Command::GetSensorAltitude => 0x2322,
            Command::SetSensorAltitude => 0x2427,
            Command::SetAmbientPressure => 0xe000,
            Command::StartLowPowerPeriodicMeasurement => 0x21ac,
            Command::GetDataReadyStatus => 0xe4b8,
            Command::PerformSelfTest => 0x3639,
            Command::MeasureSingleShot => 0x219d,
            Command::MeasureSingleShotRhtOnly => 0x2196,
            Command::PersistSettings => 0x3615,
            Command::PerformForcedRecalibration => 0x362f,
            Command::GetAutomaticSelfCalibrationEnabled => 0x2313,
            Command::SetAutomaticSelfCalibrationEnabled => 0x2416,
            Command::PerformFactoryReset => 0x3632,
        }
    }

    /// Return the maximal duration of the command, in milliseconds.
    pub fn max_duration_ms(&self) -> (r: u32)
        ensures
            r == self.spec_max_duration_ms(),
    {
        match self {
            Command::Reinitialize => 20,
            Command::GetSerialNumber => 1,
            Command::ReadMeasurement => 1,
            Command::StartPeriodicMeasurement => 0,
            Command::StopPeriodicMeasurement => 500,
            Command::GetTemperatureOffset => 1,
            Command::SetTemperatureOffset => 1,
            Command::GetSensorAltitude => 1,
            Command::SetSensorAltitude => 1,
            Command::SetAmbientPressure => 1,
            Command::StartLowPowerPeriodicMeasurement => 0,
            Command::GetDataReadyStatus => 1,
            Command::PerformSelfTest => 10000,
            Command::MeasureSingleShot => 5000,
            Command::MeasureSingleShotRhtOnly => 50,
            Command::PersistSettings => 800,
            Command::PerformForcedRecalibration => 400,
            Command::GetAutomaticSelfCalibrationEnabled => 1,
            Command::SetAutomaticSelfCalibrationEnabled => 1,
            Command::PerformFactoryReset => 1200,
        }
    }

    /// Return the bus-interaction shape of the command.
    pub fn sequence(&self) -> (r: Sequence)
        ensures
            r == self.spec_sequence(),
    {
        match self {
            Command::Reinitialize => Sequence::SendCommand,
            Command::GetSerialNumber => Sequence::ReadThreeWords,
            Command::ReadMeasurement => Sequence::ReadThreeWords,
            Command::StartPeriodicMeasurement => Sequence::SendCommand,
            Command::StopPeriodicMeasurement => Sequence::SendCommand,
            Command::GetTemperatureOffset => Sequence::ReadWord,
            Command::SetTemperatureOffset => Sequence::WriteWord,
            Command::GetSensorAltitude => Sequence::ReadWord,
            Command::SetSensorAltitude => Sequence::WriteWord,
            Command::SetAmbientPressure => Sequence::WriteWord,
            Command::StartLowPowerPeriodicMeasurement => Sequence::SendCommand,
            Command::GetDataReadyStatus => Sequence::ReadWord,
            Command::PerformSelfTest => Sequence::ReadWord,
            Command::MeasureSingleShot => Sequence::SendCommand,
            Command::MeasureSingleShotRhtOnly => Sequence::SendCommand,
            Command::PersistSettings => Sequence::SendCommand,
            Command::PerformForcedRecalibration => Sequence::SendCommandAndFetchResult,
            Command::GetAutomaticSelfCalibrationEnabled => Sequence::ReadWord,
            Command::SetAutomaticSelfCalibrationEnabled => Sequence::WriteWord,
            Command::PerformFactoryReset => Sequence::SendCommand,
        }
    }
}

/// The 2-byte request that selects a register: its big-endian bytes.
pub open spec fn spec_command_request(register: u16) -> Seq<u8> {
    seq![(register >> 8) as u8, register as u8]
}

/// The 5-byte request that writes a payload word to a register: the
/// register's big-endian bytes, the word's big-endian bytes, and the
/// word's checksum.
pub open spec fn spec_write_word_request(register: u16, word: u16) -> Seq<u8> {
    seq![
        (register >> 8) as u8,
        register as u8,
        (word >> 8) as u8,
        word as u8,
        spec_checksum((word >> 8) as u8, word as u8),
    ]
}

/// Encode the request that selects a register.
pub fn command_request(register: u16) -> (r: Vec<u8>)
    ensures
        r@ == spec_command_request(register),
{
    let mut request: Vec<u8> = Vec::new();
    request.push((register >> 8) as u8);
    request.push(register as u8);
    proof {
        assert(request@ =~= spec_command_request(register));
    }
    request
}

/// Encode the request that writes a payload word to a register.
pub fn write_word_request(register: u16, word: u16) -> (r: Vec<u8>)
    ensures
        r@ == spec_write_word_request(register, word),
{
    let high = (word >> 8) as u8;
    let low = word as u8;
    let checksum = compute([high, low]);

    let mut request: Vec<u8> = Vec::new();
    request.push((register >> 8) as u8);
    request.push(register as u8);
    request.push(high);
    request.push(low);
    request.push(checksum);
    proof {
        assert(request@ =~= spec_write_word_request(register, word));
    }
    request
}

/// The payload of a write-word request decodes back to the word it was
/// built from: the checksum byte verifies against the payload bytes, and
/// the big-endian bytes reassemble the word. This is the inverse the
/// device checks when it receives the request.
pub proof fn lemma_write_word_request_decodes(register: u16, word: u16)
    ensures
        ({
            let request = spec_write_word_request(register, word);
            spec_buffer_to_word(request[2], request[3], request[4]) == Ok::<u16, Error>(word)
        }),
{
    assert(((word >> 8) as u8) * 256 + (word as u8) == word) by (bit_vector);
}

/// Run a send-only sequence: write the register, wait. The only possible
/// failure is a transport fault on the write.
pub(crate) fn execute_send_command<B: Transport, D: Delay>(
    i2c: &mut B,
    delay: &mut D,
    address: u8,
    command: Command,
) -> (r: Result<(), Error>)
    requires
        command.spec_sequence() == Sequence::SendCommand,
    ensures
        r matches Err(e) ==> e is I2c,
{
    let request = command_request(command.register());
    match i2c.write(address, &request) {
        Ok(()) => {},
        Err(kind) => {
            return Err(Error::I2c(kind));
        },
    }
    delay.delay_ms(command.max_duration_ms());
    Ok(())
}

/// Run a read-word sequence: write the register, wait, read one
/// checksummed word. Whatever bytes the device returned, an `Ok` word was
/// decoded from a group whose checksum matched.
pub(crate) fn execute_read_word<B: Transport, D: Delay>(
    i2c: &mut B,
    delay: &mut D,
    address: u8,
    command: Command,
) -> (r: Result<u16, Error>)
    requires
        command.spec_sequence() == Sequence::ReadWord,
    ensures
        r matches Err(e) ==> (e is I2c || e is ChecksumMismatch),
        r matches Ok(word) ==> exists|b0: u8, b1: u8, b2: u8|
            spec_buffer_to_word(b0, b1, b2) == Ok::<u16, Error>(word),
{
    let request = command_request(command.register());
    match i2c.write(address, &request) {
        Ok(()) => {},
        Err(kind) => {
            return Err(Error::I2c(kind));
        },
    }
    delay.delay_ms(command.max_duration_ms());

    let mut buffer: Vec<u8> = vec![0, 0, 0];
    match i2c.read(address, &mut buffer) {
        Ok(()) => {},
        Err(kind) => {
            return Err(Error::I2c(kind));
        },
    }
    let r = buffer_to_word(buffer[0], buffer[1], buffer[2]);
    proof {
        if r is Ok {
            assert(spec_buffer_to_word(buffer[0], buffer[1], buffer[2]) == r);
        }
    }
    r
}

/// Run a read-three-words sequence: write the register, wait, read three
/// checksummed words. A mismatch in any group aborts the whole read.
pub(crate) fn execute_read_three_words<B: Transport, D: Delay>(
    i2c: &mut B,
    delay: &mut D,
    address: u8,
    command: Command,
) -> (r: Result<(u16, u16, u16), Error>)
    requires
        command.spec_sequence() == Sequence::ReadThreeWords,
    ensures
        r matches Err(e) ==> (e is I2c || e is ChecksumMismatch),
        r matches Ok(words) ==> exists|buffer: Seq<u8>|
            buffer.len() == 9 && spec_buffer_to_three_words(buffer) == Ok::<
                (u16, u16, u16),
                Error,
            >(words),
{
    let request = command_request(command.register());
    match i2c.write(address, &request) {
        Ok(()) => {},
        Err(kind) => {
            return Err(Error::I2c(kind));
        },
    }
    delay.delay_ms(command.max_duration_ms());

    let mut buffer: Vec<u8> = vec![0, 0, 0, 0, 0, 0, 0, 0, 0];
    match i2c.read(address, &mut buffer) {
        Ok(()) => {},
        Err(kind) => {
            return Err(Error::I2c(kind));
        },
    }
    let group: [u8; 9] = [
        buffer[0],
        buffer[1],
        buffer[2],
        buffer[3],
        buffer[4],
        buffer[5],
        buffer[6],
        buffer[7],
        buffer[8],
    ];
    let r = buffer_to_three_words(group);
    proof {
        if r is Ok {
            assert(group@.len() == 9 && spec_buffer_to_three_words(group@) == r);
        }
    }
    r
}

/// Run a write-word sequence: write the register and a checksummed payload
/// word, wait. The only possible failure is a transport fault on the write.
pub(crate) fn execute_write_word<B: Transport, D: Delay>(
    i2c: &mut B,
    delay: &mut D,
    address: u8,
    command: Command,
    word: u16,
) -> (r: Result<(), Error>)
    requires
        command.spec_sequence() == Sequence::WriteWord,
    ensures
        r matches Err(e) ==> e is I2c,
{
    let request = write_word_request(command.register(), word);
    match i2c.write(address, &request) {
        Ok(()) => {},
        Err(kind) => {
            return Err(Error::I2c(kind));
        },
    }
    delay.delay_ms(command.max_duration_ms());
    Ok(())
}

/// Run a send-and-fetch sequence: write the register and a checksummed
/// payload word, wait, read one checksummed word back.
pub(crate) fn execute_send_command_and_fetch_result<B: Transport, D: Delay>(
    i2c: &mut B,
    delay: &mut D,
    address: u8,
    command: Command,
    word: u16,
) -> (r: Result<u16, Error>)
    requires
        command.spec_sequence() == Sequence::SendCommandAndFetchResult,
    ensures
        r matches Err(e) ==> (e is I2c || e is ChecksumMismatch),
        r matches Ok(response) ==> exists|b0: u8, b1: u8, b2: u8|
            spec_buffer_to_word(b0, b1, b2) == Ok::<u16, Error>(response),
{
    let request = write_word_request(command.register(), word);
    match i2c.write(address, &request) {
        Ok(()) => {},
        Err(kind) => {
            return Err(Error::I2c(kind));
        },
    }
    delay.delay_ms(command.max_duration_ms());

    let mut buffer: Vec<u8> = vec![0, 0, 0];
    match i2c.read(address, &mut buffer) {
        Ok(()) => {},
        Err(kind) => {
            return Err(Error::I2c(kind));
        },
    }
    let r = buffer_to_word(buffer[0], buffer[1], buffer[2]);
    proof {
        if r is Ok {
            assert(spec_buffer_to_word(buffer[0], buffer[1], buffer[2]) == r);
        }
    }
    r
}

} // verus!
