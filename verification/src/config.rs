//! Settings fixed when the firmware is built, and the bundle that carries
//! them through the lifecycle.

use vstd::prelude::*;

verus! {

/// Name of the Wi-Fi network the node joins.
pub const WIFI_SSID: &'static str = "wifi name";

/// Passphrase of that network.
pub const WIFI_PASS: &'static str = "wifi password";

/// Endpoint that receives the sensor readings when the server names none.
pub const DEFAULT_ALERT_URL: &'static str =
    "http://192.168.1.102:8080/api/v1/weather-sensor/submit";

/// Endpoint that receives the heartbeat when the server names none.
pub const DEFAULT_I_AM_ALIVE_URL: &'static str =
    "http://192.168.1.102:8080/api/v1/i-am-alive/notify";

/// Endpoint the operating configuration is downloaded from.
pub const CONFIGURATION_URL: &'static str =
    "http://192.168.1.102:8080/api/v1/weather-sensor/configuration";

/// Unit the temperature sensor reports in: `"C"` or `"F"`.
pub const TEMPERATURE_SENSOR_UNIT_OF_MEASURE: &'static str = "C";

/// When set, a node that cannot download its configuration halts instead of
/// running on the defaults.
pub const IS_REMOTE_CONFIGURATION_MANDATORY: bool = false;

/// Seconds between two reports when the server names no interval.
pub const WEATHER_SENSOR_SUPPLY_INTERVAL_SECONDS: u64 = 30;

/// What a node announces about itself when it registers at boot.
#[derive(Debug, Clone, PartialEq, Eq)]
pub struct Registration {
    pub url: String,
    pub device_type: String,
    pub name: String,
    pub description: String,
}

pub struct RegistrationView {
    pub url: Seq<char>,
    pub device_type: Seq<char>,
    pub name: Seq<char>,
    pub description: Seq<char>,
}

impl View for Registration {
    type V = RegistrationView;

    open spec fn view(&self) -> RegistrationView {
        RegistrationView {
            url: self.url@,
            device_type: self.device_type@,
            name: self.name@,
            description: self.description@,
        }
    }
}

/// The build-time settings of one deployment.
#[derive(Debug, Clone, PartialEq, Eq)]
pub struct Settings {
    pub wifi_ssid: String,
    pub wifi_pass: String,
    pub default_alert_url: String,
    pub default_i_am_alive_url: String,
    pub configuration_url: String,
    pub temperature_sensor_unit_of_measure: String,
    pub is_remote_configuration_mandatory: bool,
    pub weather_sensor_supply_interval_seconds: u64,
    /// Registration is an optional boot step: `None` skips it.
    pub registration: Option<Registration>,
}

pub struct SettingsView {
    pub wifi_ssid: Seq<char>,
    pub wifi_pass: Seq<char>,
    pub default_alert_url: Seq<char>,
    pub default_i_am_alive_url: Seq<char>,
    pub configuration_url: Seq<char>,
    pub temperature_sensor_unit_of_measure: Seq<char>,
    pub is_remote_configuration_mandatory: bool,
    pub weather_sensor_supply_interval_seconds: u64,
    pub registration: Option<RegistrationView>,
}

impl View for Settings {
    type V = SettingsView;

    open spec fn view(&self) -> SettingsView {
        SettingsView {
            wifi_ssid: self.wifi_ssid@,
            wifi_pass: self.wifi_pass@,
            default_alert_url: self.default_alert_url@,
            default_i_am_alive_url: self.default_i_am_alive_url@,
            configuration_url: self.configuration_url@,
            temperature_sensor_unit_of_measure: self.temperature_sensor_unit_of_measure@,
            is_remote_configuration_mandatory: self.is_remote_configuration_mandatory,
            weather_sensor_supply_interval_seconds: self.weather_sensor_supply_interval_seconds,
            registration: match self.registration {
                Some(registration) => Some(registration@),
                None => None,
            },
        }
    }
}

/// The settings this build was compiled with, as a value.
pub open spec fn compiled_in_settings() -> SettingsView {
    SettingsView {
        wifi_ssid: WIFI_SSID@,
        wifi_pass: WIFI_PASS@,
        default_alert_url: DEFAULT_ALERT_URL@,
        default_i_am_alive_url: DEFAULT_I_AM_ALIVE_URL@,
        configuration_url: CONFIGURATION_URL@,
        temperature_sensor_unit_of_measure: TEMPERATURE_SENSOR_UNIT_OF_MEASURE@,
        is_remote_configuration_mandatory: IS_REMOTE_CONFIGURATION_MANDATORY,
        weather_sensor_supply_interval_seconds: WEATHER_SENSOR_SUPPLY_INTERVAL_SECONDS,
        registration: None,
    }
}

impl Settings {
    /// Gathers the constants of this module; no registration step.
    pub fn compiled_in() -> (settings: Settings)
        ensures
            settings@ == compiled_in_settings(),
    {
        Settings {
            wifi_ssid: WIFI_SSID.to_owned(),
            wifi_pass: WIFI_PASS.to_owned(),
            default_alert_url: DEFAULT_ALERT_URL.to_owned(),
            default_i_am_alive_url: DEFAULT_I_AM_ALIVE_URL.to_owned(),
            configuration_url: CONFIGURATION_URL.to_owned(),
            temperature_sensor_unit_of_measure: TEMPERATURE_SENSOR_UNIT_OF_MEASURE.to_owned(),
            is_remote_configuration_mandatory: IS_REMOTE_CONFIGURATION_MANDATORY,
            weather_sensor_supply_interval_seconds: WEATHER_SENSOR_SUPPLY_INTERVAL_SECONDS,
            registration: None,
        }
    }
}

} // verus!
