//! Physical-quantity value types and the sensor sample record.
//!
//! The sensor's native unit is a 16-bit word, and every physical quantity is
//! an exact rational derived from such a word. To keep the conversions exact
//! the quantities are stored as integers:
//!
//! - [`Temperature`] and [`Humidity`] are fixed-point values scaled by
//!   65536 (the divisor in the device's conversion formulas), so a raw word
//!   maps to them without rounding;
//! - [`Co2`], [`Pressure`] and [`Altitude`] are whole parts-per-million,
//!   hectopascals and meters, which is how the device transports them.

use vstd::prelude::*;

verus! {

/// Fixed-point scale of [`Temperature`] and [`Humidity`] values.
pub const QUANTITY_SCALE: i32 = 65536;

/// A CO₂ concentration, in whole parts per million.
#[derive(Clone, Copy, Debug, Default, PartialEq, Eq, Structural)]
pub struct Co2 {
    /// Concentration in parts per million.
    pub ppm: i32,
}

/// A temperature, in degrees Celsius scaled by [`QUANTITY_SCALE`].
#[derive(Clone, Copy, Debug, Default, PartialEq, Eq, Structural)]
pub struct Temperature {
    /// Degrees Celsius times [`QUANTITY_SCALE`].
    pub scaled_celsius: i32,
}

/// A relative humidity, in percent scaled by [`QUANTITY_SCALE`].
#[derive(Clone, Copy, Debug, Default, PartialEq, Eq, Structural)]
pub struct Humidity {
    /// Percent times [`QUANTITY_SCALE`].
    pub scaled_percent: i32,
}

/// A pressure, in whole hectopascals.
#[derive(Clone, Copy, Debug, Default, PartialEq, Eq, Structural)]
pub struct Pressure {
    /// Pressure in hectopascals.
    pub hectopascal: i32,
}

/// An altitude, in whole meters.
#[derive(Clone, Copy, Debug, Default, PartialEq, Eq, Structural)]
pub struct Altitude {
    /// Altitude in meters.
    pub meter: i32,
}

/// Build a CO₂ concentration from a value in parts per million.
pub fn co2_from_ppm(ppm: i32) -> (r: Co2)
    ensures
        r == (Co2 { ppm }),
{
    Co2 { ppm }
}

/// Return a CO₂ concentration as parts per million.
pub fn ppm_from_co2(co2: Co2) -> (r: i32)
    ensures
        r == co2.ppm,
{
    co2.ppm
}

/// Build a temperature from degrees Celsius scaled by [`QUANTITY_SCALE`].
pub fn temperature_from_scaled_celsius(scaled_celsius: i32) -> (r: Temperature)
    ensures
        r == (Temperature { scaled_celsius }),
{
    Temperature { scaled_celsius }
}

/// Return a temperature as degrees Celsius scaled by [`QUANTITY_SCALE`].
pub fn scaled_celsius_from_temperature(temperature: Temperature) -> (r: i32)
    ensures
        r == temperature.scaled_celsius,
{
    temperature.scaled_celsius
}

/// Build a humidity from percent scaled by [`QUANTITY_SCALE`].
pub fn humidity_from_scaled_percent(scaled_percent: i32) -> (r: Humidity)
    ensures
        r == (Humidity { scaled_percent }),
{
    Humidity { scaled_percent }
}

/// Return a humidity as percent scaled by [`QUANTITY_SCALE`].
pub fn scaled_percent_from_humidity(humidity: Humidity) -> (r: i32)
    ensures
        r == humidity.scaled_percent,
{
    humidity.scaled_percent
}

/// Build a pressure from a value in hectopascals.
pub fn pressure_from_hectopascal(hectopascal: i32) -> (r: Pressure)
    ensures
        r == (Pressure { hectopascal }),
{
    Pressure { hectopascal }
}

/// Return a pressure as hectopascals.
pub fn hectopascal_from_pressure(pressure: Pressure) -> (r: i32)
    ensures
        r == pressure.hectopascal,
{
    pressure.hectopascal
}

/// Build an altitude from a value in meters.
pub fn altitude_from_meter(meter: i32) -> (r: Altitude)
    ensures
        r == (Altitude { meter }),
{
    Altitude { meter }
}

/// Return an altitude as meters.
pub fn meter_from_altitude(altitude: Altitude) -> (r: i32)
    ensures
        r == altitude.meter,
{
    altitude.meter
}

/// A full sample: CO₂ concentration, temperature and humidity, captured
/// atomically from one sensor read.
#[derive(Clone, Copy, Debug, Default, PartialEq, Eq, Structural)]
pub struct Sample {
    /// CO₂ concentration.
    pub co2: Co2,
    /// Temperature.
    pub temperature: Temperature,
    /// Humidity.
    pub humidity: Humidity,
}

} // verus!
