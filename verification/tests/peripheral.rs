use weather_sensor::dto::config_request::ConfigRequest;
use weather_sensor::dto::config_response::Configuration;
use weather_sensor::dto::config_response::TemperatureUnit;
use weather_sensor::dto::register_device::RegisterDeviceDTO;
use weather_sensor::dto::request_i_am_alive::RequestIAmAlive;
use weather_sensor::dto::request_submit::Measurement;
use weather_sensor::dto::request_submit::RequestSubmit;
use weather_sensor::service::peripheral_service::connect_wifi;
use weather_sensor::service::peripheral_service::AuthMethod;
use weather_sensor::service::peripheral_service::BlinkPattern;
use weather_sensor::service::peripheral_service::LinkStatus;
use weather_sensor::service::peripheral_service::PeripheralService;
use weather_sensor::service::peripheral_service::Sampling;
use weather_sensor::service::peripheral_service::SensorError;
use weather_sensor::service::peripheral_service::TIME_LONG;
use weather_sensor::service::peripheral_service::TIME_SHORT;
use weather_sensor::util::thread_util::interval_millis;

fn board() -> PeripheralService {
    PeripheralService::new("home", "secret")
}

fn failure(message: &str) -> Result<(Measurement, Measurement), SensorError> {
    Err(SensorError { message: message.to_string() })
}

fn values(temperature: f32, humidity: f32) -> (Measurement, Measurement) {
    (Measurement::from_bits(temperature.to_bits()), Measurement::from_bits(humidity.to_bits()))
}

/// Reads with retries from a sensor that gives `readings`, one per read,
/// and returns what the policy settles on with the number of reads made.
fn sample(
    max_attempts: u32,
    readings: Vec<Result<(Measurement, Measurement), SensorError>>,
) -> (Result<(Measurement, Measurement), SensorError>, usize) {
    let board = board();
    let mut readings = readings.into_iter();
    let mut remaining = max_attempts;
    let mut last = None;
    let mut reads = 0;
    loop {
        match board.get_temperature_and_humidity_insistently(remaining, last) {
            Sampling::Done(reading) => return (reading, reads),
            Sampling::Read => {
                remaining -= 1;
                reads += 1;
                last = Some(readings.next().expect("the sensor was read once too often"));
            }
        }
    }
}

#[test]
fn mac_address_is_upper_case_hex_with_colons() {
    let board = board();
    assert_eq!(board.get_mac_address([0xAB, 0x0D, 0xEF, 0x12, 0x34, 0x56]), "AB:0D:EF:12:34:56");
    assert_eq!(board.get_mac_address([0, 0, 0, 0, 0, 0]), "00:00:00:00:00:00");
    assert_eq!(board.get_mac_address([0xFF; 6]), "FF:FF:FF:FF:FF:FF");
    assert_eq!(board.get_mac_address([0x01, 0x9A, 0xA9, 0x10, 0x0F, 0xF0]), "01:9A:A9:10:0F:F0");
}

#[test]
fn station_settings_are_wpa2_personal() {
    let station = connect_wifi("home", "secret");
    assert_eq!(station.ssid, "home");
    assert_eq!(station.password, "secret");
    assert_eq!(station.auth_method, AuthMethod::WPA2Personal);
    assert_eq!(station.bssid, None);
    assert_eq!(station.channel, None);
    assert_eq!(board().station(), station);
}

#[test]
fn indicator_patterns_have_their_counts_and_lengths() {
    let board = board();
    assert_eq!(TIME_SHORT, 20);
    assert_eq!(TIME_LONG, 1000);
    assert_eq!(board.led_blink_3_time_short(), BlinkPattern { pulses: 3, millis: 20 });
    assert_eq!(board.led_blink_3_time_long(), BlinkPattern { pulses: 3, millis: 1000 });
    assert_eq!(board.led_blink_2_time_short(), BlinkPattern { pulses: 2, millis: 20 });
    assert_eq!(board.led_blink_2_time_long(), BlinkPattern { pulses: 2, millis: 1000 });
    assert_eq!(board.led_blink_1_time_short(), BlinkPattern { pulses: 1, millis: 20 });
    assert_eq!(board.led_blink_1_time_long(), BlinkPattern { pulses: 1, millis: 1000 });
}

#[test]
fn link_check_makes_exactly_one_attempt() {
    let board = board();
    assert_eq!(
        board.retry_wifi_connection_if_necessary_and_return_status(true, None),
        LinkStatus::Connected
    );
    assert_eq!(
        board.retry_wifi_connection_if_necessary_and_return_status(true, Some(false)),
        LinkStatus::Connected
    );
    assert_eq!(
        board.retry_wifi_connection_if_necessary_and_return_status(false, None),
        LinkStatus::Reconnect
    );
    assert_eq!(
        board.retry_wifi_connection_if_necessary_and_return_status(false, Some(true)),
        LinkStatus::Connected
    );
    assert_eq!(
        board.retry_wifi_connection_if_necessary_and_return_status(false, Some(false)),
        LinkStatus::Disconnected { signal: BlinkPattern { pulses: 3, millis: 1000 } }
    );
}

#[test]
fn sensor_succeeds_on_the_third_of_three_attempts() {
    let (reading, reads) =
        sample(3, vec![failure("checksum"), failure("timeout"), Ok(values(21.5, 44.0))]);
    let (temperature, humidity) = reading.unwrap();
    assert_eq!(f32::from_bits(temperature.to_bits()), 21.5);
    assert_eq!(f32::from_bits(humidity.to_bits()), 44.0);
    assert_eq!(reads, 3);
}

#[test]
fn first_success_ends_the_retry() {
    let (reading, reads) = sample(3, vec![Ok(values(1.0, 2.0)), Ok(values(3.0, 4.0))]);
    assert_eq!(reading, Ok(values(1.0, 2.0)));
    assert_eq!(reads, 1);
}

#[test]
fn exhausted_retry_returns_the_last_error() {
    let (reading, reads) = sample(
        3,
        vec![failure("first"), failure("second"), failure("third"), Ok(values(21.5, 44.0))],
    );
    assert_eq!(reading, failure("third"));
    assert_eq!(reads, 3);
    let (reading, reads) = sample(1, vec![failure("only")]);
    assert_eq!(reading, failure("only"));
    assert_eq!(reads, 1);
}

#[test]
fn no_attempt_allowed_means_no_read() {
    let (reading, reads) = sample(0, vec![]);
    assert_eq!(reading, failure("no sensor read was attempted"));
    assert_eq!(reads, 0);
}

#[test]
fn interval_is_converted_to_milliseconds() {
    assert_eq!(interval_millis(0), 0);
    assert_eq!(interval_millis(30), 30_000);
    assert_eq!(interval_millis(18_446_744_073_709_551), 18_446_744_073_709_551_000);
    assert_eq!(interval_millis(18_446_744_073_709_552), u64::MAX);
    assert_eq!(interval_millis(u64::MAX), u64::MAX);
    assert_eq!(weather_sensor::util::thread_util::TIME_SHORT, 1000);
}

#[test]
fn requests_keep_what_they_are_made_of() {
    assert_eq!(ConfigRequest::new("AA".to_string()).mac_address(), "AA");
    assert_eq!(RequestIAmAlive::new("BB".to_string()).mac_address(), "BB");
    let registration = RegisterDeviceDTO::new(
        "CC".to_string(),
        "SENSOR".to_string(),
        "attic".to_string(),
        "roof".to_string(),
    );
    assert_eq!(registration.mac_address(), "CC");
    assert_eq!(registration.device_type(), "SENSOR");
    assert_eq!(registration.name(), "attic");
    assert_eq!(registration.description(), "roof");
    let (temperature, humidity) = values(21.5, 44.0);
    let pressure = Measurement::from_bits(1013.25f32.to_bits());
    let submission = RequestSubmit::new(
        "DD".to_string(),
        Some(temperature),
        Some(humidity),
        Some(pressure),
        Some(5),
        Some(true),
    );
    assert_eq!(submission.mac_address(), "DD");
    assert_eq!(submission.temperature(), Some(temperature));
    assert_eq!(submission.humidity(), Some(humidity));
    assert_eq!(submission.pressure(), Some(pressure));
    assert_eq!(submission.lux(), Some(5));
    assert_eq!(submission.light(), Some(true));
    let empty = RequestSubmit::new("EE".to_string(), None, None, None, None, None);
    assert_eq!(empty.temperature(), None);
    assert_eq!(empty.lux(), None);
    assert_eq!(empty.light(), None);
}

#[test]
fn measurement_keeps_the_bits() {
    for value in [0.0f32, -0.0, 21.5, 44.0, -273.15, f32::MAX, f32::MIN_POSITIVE] {
        let measurement = Measurement::from_bits(value.to_bits());
        assert_eq!(measurement.to_bits(), value.to_bits());
        assert_eq!(f32::from_bits(measurement.to_bits()), value);
    }
    assert!(f32::from_bits(Measurement::from_bits(f32::NAN.to_bits()).to_bits()).is_nan());
}

#[test]
fn temperature_unit_is_read_from_the_text() {
    let mut configuration = Configuration {
        alert_endpoint: String::new(),
        i_am_alive_endpoint: String::new(),
        temperature_sensor_unit_of_measure: "C".to_string(),
        weather_sensor_supply_interval_seconds: 0,
    };
    assert_eq!(configuration.temperature_unit(), Some(TemperatureUnit::Celsius));
    configuration.temperature_sensor_unit_of_measure = "F".to_string();
    assert_eq!(configuration.temperature_unit(), Some(TemperatureUnit::Fahrenheit));
    configuration.temperature_sensor_unit_of_measure = "K".to_string();
    assert_eq!(configuration.temperature_unit(), None);
    configuration.temperature_sensor_unit_of_measure = String::new();
    assert_eq!(configuration.temperature_unit(), None);
    assert_eq!(configuration.duplicate(), configuration);
}
