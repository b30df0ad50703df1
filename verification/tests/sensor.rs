use scd4x::Command;
use scd4x::DEFAULT_ADDRESS;
use scd4x::Delay;
use scd4x::Error;
use scd4x::Humidity;
use scd4x::I2cErrorKind;
use scd4x::QUANTITY_SCALE;
use scd4x::Sample;
use scd4x::Scd4x;
use scd4x::Sequence;
use scd4x::Temperature;
use scd4x::Transport;
use scd4x::altitude_from_meter;
use scd4x::co2_from_ppm;
use scd4x::command_request;
use scd4x::humidity_from_scaled_percent;
use scd4x::pressure_from_hectopascal;
use scd4x::temperature_from_scaled_celsius;
use scd4x::write_word_request;

/// One expected bus transaction: what the driver must write, or what the
/// device answers to a read.
#[derive(Debug, Clone, PartialEq)]
enum Transaction {
    Write(u8, Vec<u8>),
    Read(u8, Vec<u8>),
}

/// A bus transport fed by a fixed list of expected transactions.
struct I2cMock {
    expectations: Vec<Transaction>,
    position: usize,
}

impl I2cMock {
    fn new(expectations: &[Transaction]) -> Self {
        Self {
            expectations: expectations.to_vec(),
            position: 0,
        }
    }

    fn done(&self) {
        assert_eq!(
            self.position,
            self.expectations.len(),
            "not all expected transactions were performed"
        );
    }
}

impl Transport for I2cMock {
    fn write(&mut self, address: u8, bytes: &Vec<u8>) -> Result<(), I2cErrorKind> {
        let expected = self
            .expectations
            .get(self.position)
            .expect("unexpected write transaction");
        self.position += 1;
        match expected {
            Transaction::Write(expected_address, expected_bytes) => {
                assert_eq!(address, *expected_address);
                assert_eq!(bytes, expected_bytes);
                Ok(())
            }
            Transaction::Read(..) => panic!("expected a read, the driver wrote"),
        }
    }

    fn read(&mut self, address: u8, buffer: &mut Vec<u8>) -> Result<(), I2cErrorKind> {
        let expected = self
            .expectations
            .get(self.position)
            .expect("unexpected read transaction");
        self.position += 1;
        match expected {
            Transaction::Read(expected_address, response) => {
                assert_eq!(address, *expected_address);
                assert_eq!(buffer.len(), response.len());
                *buffer = response.clone();
                Ok(())
            }
            Transaction::Write(..) => panic!("expected a write, the driver read"),
        }
    }
}

/// A bus transport whose every transaction fails with a fixed error kind.
struct FaultyI2c(I2cErrorKind);

impl Transport for FaultyI2c {
    fn write(&mut self, _address: u8, _bytes: &Vec<u8>) -> Result<(), I2cErrorKind> {
        Err(self.0)
    }

    fn read(&mut self, _address: u8, _buffer: &mut Vec<u8>) -> Result<(), I2cErrorKind> {
        Err(self.0)
    }
}

/// A delay source that does not wait.
struct DelayMock;

impl Delay for DelayMock {
    fn delay_ms(&mut self, _milliseconds: u32) {}
}

/// Build a temperature from a value in degrees Celsius, truncating to the
/// fixed-point resolution.
fn temperature_from_celsius(celsius: f32) -> Temperature {
    temperature_from_scaled_celsius((celsius * QUANTITY_SCALE as f32) as i32)
}

/// Build a humidity from a value in percent, truncating to the fixed-point
/// resolution.
fn humidity_from_number(percent: f32) -> Humidity {
    humidity_from_scaled_percent((percent * QUANTITY_SCALE as f32) as i32)
}

#[test]
fn test_get_serial_number() -> Result<(), Error> {
    let expectations = [
        Transaction::Write(DEFAULT_ADDRESS, vec![0x36, 0x82]),
        Transaction::Read(
            DEFAULT_ADDRESS,
            vec![0xf8, 0x96, 0x31, 0x9f, 0x07, 0xc2, 0x3b, 0xbe, 0x89],
        ),
    ];
    let i2c = I2cMock::new(&expectations);

    let mut scd4x = Scd4x::new(i2c, DelayMock);

    let serial_number = scd4x.get_serial_number()?;

    assert_eq!(serial_number, 273_325_796_834_238);

    scd4x.release().done();
    Ok(())
}

#[test]
fn test_reinit() -> Result<(), Error> {
    let expectations = [Transaction::Write(DEFAULT_ADDRESS, vec![0x36, 0x46])];
    let i2c = I2cMock::new(&expectations);

    let mut scd4x = Scd4x::new(i2c, DelayMock);

    scd4x.reinit()?;

    scd4x.release().done();
    Ok(())
}

#[test]
fn test_measure_single_shot() -> Result<(), Error> {
    let expectations = [Transaction::Write(DEFAULT_ADDRESS, vec![0x21, 0x9d])];
    let i2c = I2cMock::new(&expectations);

    let scd4x = Scd4x::new(i2c, DelayMock);

    let scd4x = scd4x.measure_single_shot()?;

    scd4x.release().done();
    Ok(())
}

#[test]
fn test_measure_single_shot_rht_only() -> Result<(), Error> {
    let expectations = [Transaction::Write(DEFAULT_ADDRESS, vec![0x21, 0x96])];
    let i2c = I2cMock::new(&expectations);

    let scd4x = Scd4x::new(i2c, DelayMock);

    let scd4x = scd4x.measure_single_shot_rht_only()?;

    scd4x.release().done();
    Ok(())
}

#[test]
fn test_perform_factory_reset() -> Result<(), Error> {
    let expectations = [Transaction::Write(DEFAULT_ADDRESS, vec![0x36, 0x32])];
    let i2c = I2cMock::new(&expectations);

    let mut scd4x = Scd4x::new(i2c, DelayMock);

    scd4x.perform_factory_reset()?;

    scd4x.release().done();
    Ok(())
}

#[test]
fn test_perform_self_test() -> Result<(), Error> {
    let expectations = [
        Transaction::Write(DEFAULT_ADDRESS, vec![0x36, 0x39]),
        Transaction::Read(DEFAULT_ADDRESS, vec![0x00, 0x00, 0x81]),
    ];
    let i2c = I2cMock::new(&expectations);

    let mut scd4x = Scd4x::new(i2c, DelayMock);

    let result = scd4x.perform_self_test()?;
    assert!(result);

    scd4x.release().done();
    Ok(())
}

#[test]
fn test_persist_settings() -> Result<(), Error> {
    let expectations = [Transaction::Write(DEFAULT_ADDRESS, vec![0x36, 0x15])];
    let i2c = I2cMock::new(&expectations);

    let mut scd4x = Scd4x::new(i2c, DelayMock);

    scd4x.persist_settings()?;

    scd4x.release().done();
    Ok(())
}

#[test]
fn test_get_data_ready_status() -> Result<(), Error> {
    let expectations = [
        Transaction::Write(DEFAULT_ADDRESS, vec![0xe4, 0xb8]),
        Transaction::Read(DEFAULT_ADDRESS, vec![0x80, 0x00, 0xa2]),
    ];
    let i2c = I2cMock::new(&expectations);

    let mut scd4x = Scd4x::new_in_measuring(i2c, DelayMock);

    let ready = scd4x.get_data_ready_status()?;
    assert!(!ready);

    scd4x.release().done();
    Ok(())
}

#[test]
fn test_start_low_power_periodic_measurement() -> Result<(), Error> {
    let expectations = [Transaction::Write(DEFAULT_ADDRESS, vec![0x21, 0xac])];
    let i2c = I2cMock::new(&expectations);

    let scd4x = Scd4x::new(i2c, DelayMock);

    let scd4x = scd4x.start_low_power_periodic_measurement()?;

    scd4x.release().done();
    Ok(())
}

#[test]
fn test_get_automatic_self_calibration_enabled() -> Result<(), Error> {
    let expectations = [
        Transaction::Write(DEFAULT_ADDRESS, vec![0x23, 0x13]),
        Transaction::Read(DEFAULT_ADDRESS, vec![0x00, 0x00, 0x81]),
    ];
    let i2c = I2cMock::new(&expectations);

    let mut scd4x = Scd4x::new(i2c, DelayMock);

    let enabled = scd4x.get_automatic_self_calibration_enabled()?;
    assert!(!enabled);

    scd4x.release().done();
    Ok(())
}

#[test]
fn test_set_automatic_self_calibration_enabled() -> Result<(), Error> {
    let expectations = [Transaction::Write(
        DEFAULT_ADDRESS,
        vec![0x24, 0x16, 0x00, 0x01, 0xb0],
    )];
    let i2c = I2cMock::new(&expectations);

    let mut scd4x = Scd4x::new(i2c, DelayMock);

    scd4x.set_automatic_self_calibration_enabled(true)?;

    scd4x.release().done();
    Ok(())
}

#[test]
fn test_perform_forced_recalibration() -> Result<(), Error> {
    let expectations = [
        Transaction::Write(DEFAULT_ADDRESS, vec![0x36, 0x2f, 0x01, 0xe0, 0xb4]),
        Transaction::Read(DEFAULT_ADDRESS, vec![0x7f, 0xce, 0x7b]),
    ];
    let i2c = I2cMock::new(&expectations);

    let mut scd4x = Scd4x::new(i2c, DelayMock);

    let correction = scd4x.perform_forced_recalibration(co2_from_ppm(480))?;
    assert_eq!(correction, Some(co2_from_ppm(-50)));

    scd4x.release().done();
    Ok(())
}

#[test]
fn test_perform_forced_recalibration_failure() -> Result<(), Error> {
    let expectations = [
        Transaction::Write(DEFAULT_ADDRESS, vec![0x36, 0x2f, 0x01, 0xe0, 0xb4]),
        Transaction::Read(DEFAULT_ADDRESS, vec![0xff, 0xff, 0xac]),
    ];
    let i2c = I2cMock::new(&expectations);

    let mut scd4x = Scd4x::new(i2c, DelayMock);

    let correction = scd4x.perform_forced_recalibration(co2_from_ppm(480))?;
    assert_eq!(correction, None);

    scd4x.release().done();
    Ok(())
}

#[test]
fn test_set_ambient_pressure() -> Result<(), Error> {
    let expectations = [Transaction::Write(
        DEFAULT_ADDRESS,
        vec![0xe0, 0x00, 0x03, 0xdb, 0x42],
    )];
    let i2c = I2cMock::new(&expectations);

    let mut scd4x = Scd4x::new(i2c, DelayMock);

    scd4x.set_ambient_pressure(pressure_from_hectopascal(987))?;

    scd4x.release().done();
    Ok(())
}

#[test]
fn test_get_sensor_altitude() -> Result<(), Error> {
    let expectations = [
        Transaction::Write(DEFAULT_ADDRESS, vec![0x23, 0x22]),
        Transaction::Read(DEFAULT_ADDRESS, vec![0x04, 0x4c, 0x42]),
    ];
    let i2c = I2cMock::new(&expectations);

    let mut scd4x = Scd4x::new(i2c, DelayMock);

    let sensor_altitude = scd4x.get_sensor_altitude()?;
    assert_eq!(sensor_altitude, altitude_from_meter(1100));

    scd4x.release().done();
    Ok(())
}

#[test]
fn test_set_sensor_altitude() -> Result<(), Error> {
    let expectations = [Transaction::Write(
        DEFAULT_ADDRESS,
        vec![0x24, 0x27, 0x07, 0x9e, 0x09],
    )];
    let i2c = I2cMock::new(&expectations);

    let mut scd4x = Scd4x::new(i2c, DelayMock);

    scd4x.set_sensor_altitude(altitude_from_meter(1950))?;

    scd4x.release().done();
    Ok(())
}

#[test]
fn test_get_temperature_offset() -> Result<(), Error> {
    let expectations = [
        Transaction::Write(DEFAULT_ADDRESS, vec![0x23, 0x18]),
        Transaction::Read(DEFAULT_ADDRESS, vec![0x09, 0x12, 0x63]),
    ];
    let i2c = I2cMock::new(&expectations);

    let mut scd4x = Scd4x::new(i2c, DelayMock);

    let temperature_offset = scd4x.get_temperature_offset()?;
    assert_eq!(temperature_offset, temperature_from_celsius(6.200_409));

    scd4x.release().done();
    Ok(())
}

#[test]
fn test_set_temperature_offset() -> Result<(), Error> {
    let expectations = [Transaction::Write(
        DEFAULT_ADDRESS,
        vec![0x24, 0x1d, 0x07, 0xe6, 0x48],
    )];
    let i2c = I2cMock::new(&expectations);

    let mut scd4x = Scd4x::new(i2c, DelayMock);

    scd4x.set_temperature_offset(temperature_from_celsius(5.4))?;

    scd4x.release().done();
    Ok(())
}

#[test]
fn test_stop_periodic_measurement() -> Result<(), Error> {
    let expectations = [Transaction::Write(DEFAULT_ADDRESS, vec![0x3f, 0x86])];
    let i2c = I2cMock::new(&expectations);

    let scd4x = Scd4x::new(i2c, DelayMock);

    let scd4x = scd4x.stop_periodic_measurement()?;

    scd4x.release().done();
    Ok(())
}

#[test]
fn test_read_measurement() -> Result<(), Error> {
    let expectations = [
        Transaction::Write(DEFAULT_ADDRESS, vec![0xec, 0x05]),
        Transaction::Read(
            DEFAULT_ADDRESS,
            vec![0x01, 0xf4, 0x33, 0x66, 0x67, 0xa2, 0x5e, 0xb9, 0x3c],
        ),
    ];
    let i2c = I2cMock::new(&expectations);

    let mut scd4x = Scd4x::new_in_measuring(i2c, DelayMock);

    let sample = scd4x.read_measurement()?;
    let expected = Sample {
        co2: co2_from_ppm(500),
        temperature: temperature_from_celsius(25.001_602),
        humidity: humidity_from_number(37.001_038),
    };

    assert_eq!(sample, expected);

    scd4x.release().done();
    Ok(())
}

#[test]
fn test_start_periodic_measurement() -> Result<(), Error> {
    let expectations = [Transaction::Write(DEFAULT_ADDRESS, vec![0x21, 0xb1])];
    let i2c = I2cMock::new(&expectations);

    let scd4x = Scd4x::new(i2c, DelayMock);

    let scd4x = scd4x.start_periodic_measurement()?;

    scd4x.release().done();

    Ok(())
}

#[test]
fn test_new_with_address_uses_custom_address() -> Result<(), Error> {
    let expectations = [Transaction::Write(0x61, vec![0x36, 0x46])];
    let i2c = I2cMock::new(&expectations);

    let mut scd4x = Scd4x::new_with_address(i2c, 0x61, DelayMock);

    scd4x.reinit()?;

    scd4x.release().done();
    Ok(())
}

#[test]
fn test_transport_fault_is_reported() {
    let mut scd4x = Scd4x::new(FaultyI2c(I2cErrorKind::Other), DelayMock);

    let result = scd4x.reinit();

    assert_eq!(result, Err(Error::I2c(I2cErrorKind::Other)));
}

#[test]
fn test_read_fault_is_reported() {
    let expectations = [Transaction::Write(DEFAULT_ADDRESS, vec![0x23, 0x22])];
    // The mock accepts the register write; a second transport then fails
    // the read.
    let mut scd4x = Scd4x::new(
        SplitI2c {
            good: I2cMock::new(&expectations),
            fail_reads: true,
        },
        DelayMock,
    );

    let result = scd4x.get_sensor_altitude();

    assert_eq!(result, Err(Error::I2c(I2cErrorKind::NoAcknowledgeData)));
}

/// A transport that forwards writes to a mock but fails every read.
struct SplitI2c {
    good: I2cMock,
    fail_reads: bool,
}

impl Transport for SplitI2c {
    fn write(&mut self, address: u8, bytes: &Vec<u8>) -> Result<(), I2cErrorKind> {
        self.good.write(address, bytes)
    }

    fn read(&mut self, address: u8, buffer: &mut Vec<u8>) -> Result<(), I2cErrorKind> {
        if self.fail_reads {
            Err(I2cErrorKind::NoAcknowledgeData)
        } else {
            self.good.read(address, buffer)
        }
    }
}

#[test]
fn test_checksum_mismatch_aborts_read() {
    // The first group's checksum is wrong: the whole read is rejected even
    // though the later groups are intact.
    let expectations = [
        Transaction::Write(DEFAULT_ADDRESS, vec![0xec, 0x05]),
        Transaction::Read(
            DEFAULT_ADDRESS,
            vec![0x01, 0xf4, 0x00, 0x66, 0x67, 0xa2, 0x5e, 0xb9, 0x3c],
        ),
    ];
    let i2c = I2cMock::new(&expectations);

    let mut scd4x = Scd4x::new_in_measuring(i2c, DelayMock);

    let result = scd4x.read_measurement();

    assert_eq!(
        result,
        Err(Error::ChecksumMismatch {
            actual: 0x33,
            expected: 0x00,
        })
    );

    scd4x.release().done();
}

#[test]
fn test_full_measurement_session() -> Result<(), Error> {
    // A legal mode-transition sequence: configure while idle, start
    // measuring, poll, read, stop, release. An illegal sequence would not
    // compile.
    let expectations = [
        Transaction::Write(DEFAULT_ADDRESS, vec![0x24, 0x1d, 0x07, 0xe6, 0x48]),
        Transaction::Write(DEFAULT_ADDRESS, vec![0x21, 0xb1]),
        Transaction::Write(DEFAULT_ADDRESS, vec![0xe4, 0xb8]),
        Transaction::Read(DEFAULT_ADDRESS, vec![0x80, 0x01, 0x93]),
        Transaction::Write(DEFAULT_ADDRESS, vec![0xec, 0x05]),
        Transaction::Read(
            DEFAULT_ADDRESS,
            vec![0x01, 0xf4, 0x33, 0x66, 0x67, 0xa2, 0x5e, 0xb9, 0x3c],
        ),
        Transaction::Write(DEFAULT_ADDRESS, vec![0x3f, 0x86]),
    ];
    let i2c = I2cMock::new(&expectations);

    let mut scd4x = Scd4x::new(i2c, DelayMock);
    scd4x.set_temperature_offset(temperature_from_celsius(5.4))?;

    let mut scd4x = scd4x.start_periodic_measurement()?;
    let ready = scd4x.get_data_ready_status()?;
    assert!(ready);

    let sample = scd4x.read_measurement()?;
    assert_eq!(sample.co2, co2_from_ppm(500));

    let scd4x = scd4x.stop_periodic_measurement()?;

    scd4x.release().done();
    Ok(())
}

#[test]
fn test_command_catalog_reference_values() {
    assert_eq!(Command::Reinitialize.register(), 0x3646);
    assert_eq!(Command::Reinitialize.max_duration_ms(), 20);
    assert_eq!(Command::Reinitialize.sequence(), Sequence::SendCommand);

    assert_eq!(Command::GetSerialNumber.register(), 0x3682);
    assert_eq!(Command::GetSerialNumber.sequence(), Sequence::ReadThreeWords);

    assert_eq!(Command::ReadMeasurement.register(), 0xec05);
    assert_eq!(Command::ReadMeasurement.sequence(), Sequence::ReadThreeWords);

    assert_eq!(Command::StartPeriodicMeasurement.register(), 0x21b1);
    assert_eq!(Command::StartPeriodicMeasurement.max_duration_ms(), 0);

    assert_eq!(Command::StopPeriodicMeasurement.register(), 0x3f86);
    assert_eq!(Command::StopPeriodicMeasurement.max_duration_ms(), 500);

    assert_eq!(Command::GetTemperatureOffset.register(), 0x2318);
    assert_eq!(Command::GetTemperatureOffset.sequence(), Sequence::ReadWord);

    assert_eq!(Command::SetTemperatureOffset.register(), 0x241d);
    assert_eq!(Command::SetTemperatureOffset.sequence(), Sequence::WriteWord);

    assert_eq!(Command::GetSensorAltitude.register(), 0x2322);
    assert_eq!(Command::SetSensorAltitude.register(), 0x2427);
    assert_eq!(Command::SetAmbientPressure.register(), 0xe000);

    assert_eq!(Command::StartLowPowerPeriodicMeasurement.register(), 0x21ac);
    assert_eq!(Command::GetDataReadyStatus.register(), 0xe4b8);

    assert_eq!(Command::PerformSelfTest.register(), 0x3639);
    assert_eq!(Command::PerformSelfTest.max_duration_ms(), 10_000);

    assert_eq!(Command::MeasureSingleShot.register(), 0x219d);
    assert_eq!(Command::MeasureSingleShot.max_duration_ms(), 5_000);

    assert_eq!(Command::MeasureSingleShotRhtOnly.register(), 0x2196);
    assert_eq!(Command::MeasureSingleShotRhtOnly.max_duration_ms(), 50);

    assert_eq!(Command::PersistSettings.register(), 0x3615);
    assert_eq!(Command::PersistSettings.max_duration_ms(), 800);

    assert_eq!(Command::PerformForcedRecalibration.register(), 0x362f);
    assert_eq!(
        Command::PerformForcedRecalibration.sequence(),
        Sequence::SendCommandAndFetchResult
    );

    assert_eq!(Command::GetAutomaticSelfCalibrationEnabled.register(), 0x2313);
    assert_eq!(Command::SetAutomaticSelfCalibrationEnabled.register(), 0x2416);

    assert_eq!(Command::PerformFactoryReset.register(), 0x3632);
    assert_eq!(Command::PerformFactoryReset.max_duration_ms(), 1_200);
}

#[test]
fn test_request_encodings() {
    assert_eq!(command_request(0x21b1), vec![0x21, 0xb1]);
    assert_eq!(command_request(0xec05), vec![0xec, 0x05]);
    assert_eq!(
        write_word_request(0x2416, 0x0001),
        vec![0x24, 0x16, 0x00, 0x01, 0xb0]
    );
    assert_eq!(
        write_word_request(0x362f, 0x01e0),
        vec![0x36, 0x2f, 0x01, 0xe0, 0xb4]
    );
}
