//! One report of sensor readings.

use vstd::prelude::*;

verus! {

/// A sensor value in single precision, carried as the 32 bits of its
/// encoding. The lifecycle passes such values on and never computes with them.
#[derive(Debug, Clone, Copy, PartialEq, Eq, Structural)]
pub struct Measurement {
    pub bits: u32,
}

impl Measurement {
    pub fn from_bits(bits: u32) -> (measurement: Measurement)
        ensures
            measurement.bits == bits,
    {
        Measurement { bits }
    }

    pub fn to_bits(self) -> (bits: u32)
        ensures
            bits == self.bits,
    {
        self.bits
    }
}

/// The readings of one cycle; a field that could not be read is `None` and
/// goes out as `null`. On the wire:
/// `{ "macAddress": string, "temperature": number|null, "humidity": number|null,
/// "pressure": number|null, "lux": number|null, "light": bool|null }`.
#[derive(Debug, Clone, PartialEq, Eq)]
pub struct RequestSubmit {
    mac_address: String,
    temperature: Option<Measurement>,
    humidity: Option<Measurement>,
    pressure: Option<Measurement>,
    lux: Option<u32>,
    light: Option<bool>,
}

pub struct RequestSubmitView {
    pub mac_address: Seq<char>,
    pub temperature: Option<Measurement>,
    pub humidity: Option<Measurement>,
    pub pressure: Option<Measurement>,
    /// Illuminance in whole lux, as the light sensor reports it.
    pub lux: Option<u32>,
    pub light: Option<bool>,
}

impl View for RequestSubmit {
    type V = RequestSubmitView;

    closed spec fn view(&self) -> RequestSubmitView {
        RequestSubmitView {
            mac_address: self.mac_address@,
            temperature: self.temperature,
            humidity: self.humidity,
            pressure: self.pressure,
            lux: self.lux,
            light: self.light,
        }
    }
}

impl RequestSubmit {
    pub fn new(
        mac_address: String,
        temperature: Option<Measurement>,
        humidity: Option<Measurement>,
        pressure: Option<Measurement>,
        lux: Option<u32>,
        light: Option<bool>,
    ) -> (request: RequestSubmit)
        ensures
            request@ == (RequestSubmitView {
                mac_address: mac_address@,
                temperature,
                humidity,
                pressure,
                lux,
                light,
            }),
    {
        RequestSubmit { mac_address, temperature, humidity, pressure, lux, light }
    }

    pub fn mac_address(&self) -> (mac_address: &str)
        ensures
            mac_address@ == self@.mac_address,
    {
        self.mac_address.as_str()
    }

    pub fn temperature(&self) -> (temperature: Option<Measurement>)
        ensures
            temperature == self@.temperature,
    {
        self.temperature
    }

    pub fn humidity(&self) -> (humidity: Option<Measurement>)
        ensures
            humidity == self@.humidity,
    {
        self.humidity
    }

    pub fn pressure(&self) -> (pressure: Option<Measurement>)
        ensures
            pressure == self@.pressure,
    {
        self.pressure
    }

    pub fn lux(&self) -> (lux: Option<u32>)
        ensures
            lux == self@.lux,
    {
        self.lux
    }

    pub fn light(&self) -> (light: Option<bool>)
        ensures
            light == self@.light,
    {
        self.light
    }
}

} // verus!
