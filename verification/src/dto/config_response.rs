//! The operating configuration of a device.

use vstd::prelude::*;

verus! {

/// Unit in which temperatures are reported.
#[derive(Debug, Clone, Copy, PartialEq, Eq, Structural)]
pub enum TemperatureUnit {
    Celsius,
    Fahrenheit,
}

/// The unit a configuration text stands for: `"C"` or `"F"`, nothing else.
pub open spec fn temperature_unit_of(text: Seq<char>) -> Option<TemperatureUnit> {
    if text == seq!['C'] {
        Some(TemperatureUnit::Celsius)
    } else if text == seq!['F'] {
        Some(TemperatureUnit::Fahrenheit)
    } else {
        None
    }
}

/// Where to report, in which unit, and how often. On the wire:
/// `{ "alertEndpoint": string, "iAmAliveEndpoint": string,
/// "temperatureSensorUnitOfMeasure": "C"|"F",
/// "weatherSensorSupplyIntervalSeconds": integer }`.
#[derive(Debug, Clone, PartialEq, Eq)]
pub struct Configuration {
    pub alert_endpoint: String,
    pub i_am_alive_endpoint: String,
    pub temperature_sensor_unit_of_measure: String,
    pub weather_sensor_supply_interval_seconds: u64,
}

pub struct ConfigurationView {
    pub alert_endpoint: Seq<char>,
    pub i_am_alive_endpoint: Seq<char>,
    pub temperature_sensor_unit_of_measure: Seq<char>,
    pub weather_sensor_supply_interval_seconds: u64,
}

impl View for Configuration {
    type V = ConfigurationView;

    open spec fn view(&self) -> ConfigurationView {
        ConfigurationView {
            alert_endpoint: self.alert_endpoint@,
            i_am_alive_endpoint: self.i_am_alive_endpoint@,
            temperature_sensor_unit_of_measure: self.temperature_sensor_unit_of_measure@,
            weather_sensor_supply_interval_seconds: self.weather_sensor_supply_interval_seconds,
        }
    }
}

impl ConfigurationView {
    /// A configuration is usable when its unit is one of the two known ones.
    pub open spec fn usable(self) -> bool {
        temperature_unit_of(self.temperature_sensor_unit_of_measure) is Some
    }
}

impl Configuration {
    /// The unit this configuration names, if it is a known one.
    pub fn temperature_unit(&self) -> (unit: Option<TemperatureUnit>)
        ensures
            unit == temperature_unit_of(self@.temperature_sensor_unit_of_measure),
    {
        proof {
            reveal_strlit("C");
            reveal_strlit("F");
        }
        let celsius = "C".to_owned();
        let fahrenheit = "F".to_owned();
        assert(celsius@ =~= seq!['C']);
        assert(fahrenheit@ =~= seq!['F']);
        if self.temperature_sensor_unit_of_measure == celsius {
            Some(TemperatureUnit::Celsius)
        } else if self.temperature_sensor_unit_of_measure == fahrenheit {
            Some(TemperatureUnit::Fahrenheit)
        } else {
            None
        }
    }

    /// A copy with the same contents.
    pub fn duplicate(&self) -> (copy: Configuration)
        ensures
            copy@ == self@,
    {
        Configuration {
            alert_endpoint: self.alert_endpoint.clone(),
            i_am_alive_endpoint: self.i_am_alive_endpoint.clone(),
            temperature_sensor_unit_of_measure: self.temperature_sensor_unit_of_measure.clone(),
            weather_sensor_supply_interval_seconds: self.weather_sensor_supply_interval_seconds,
        }
    }
}

} // verus!
