use weather_sensor::dto::config_response::Configuration;
use weather_sensor::dto::request_submit::Measurement;
use weather_sensor::service::client_service::accept_configuration;
use weather_sensor::service::client_service::configuration_response;
use weather_sensor::service::client_service::decimal_string;
use weather_sensor::service::client_service::delivered;
use weather_sensor::service::client_service::fallback_configuration;
use weather_sensor::service::client_service::get_configuration;
use weather_sensor::service::client_service::get_default_configuration;
use weather_sensor::service::client_service::post_request;
use weather_sensor::service::client_service::read_response;
use weather_sensor::service::client_service::register_device;
use weather_sensor::service::client_service::ClientService;
use weather_sensor::service::client_service::ConfigError;
use weather_sensor::service::client_service::Exchange;
use weather_sensor::service::client_service::Payload;
use weather_sensor::service::client_service::TransportError;
use weather_sensor::service::client_service::RESPONSE_BUFFER_SIZE;

fn error(message: &str) -> TransportError {
    TransportError { message: message.to_string() }
}

fn configuration(unit: &str) -> Configuration {
    Configuration {
        alert_endpoint: "http://x/a".to_string(),
        i_am_alive_endpoint: "http://x/b".to_string(),
        temperature_sensor_unit_of_measure: unit.to_string(),
        weather_sensor_supply_interval_seconds: 30,
    }
}

#[test]
fn decimal_string_writes_the_digits() {
    assert_eq!(decimal_string(0), "0");
    assert_eq!(decimal_string(7), "7");
    assert_eq!(decimal_string(9), "9");
    assert_eq!(decimal_string(10), "10");
    assert_eq!(decimal_string(99), "99");
    assert_eq!(decimal_string(100), "100");
    assert_eq!(decimal_string(4086), "4086");
    assert_eq!(decimal_string(1234567890), "1234567890");
    assert_eq!(decimal_string(usize::MAX), usize::MAX.to_string());
}

#[test]
fn post_is_framed_as_json_with_its_length() {
    let body = "{\"macAddress\":\"AB:0D:EF:12:34:56\"}";
    let post = post_request(body.as_bytes(), "http://x/b");
    assert_eq!(post.url, "http://x/b");
    assert_eq!(
        post.headers,
        vec![
            ("content-type".to_string(), "application/json".to_string()),
            ("content-length".to_string(), "34".to_string()),
        ]
    );
    assert_eq!(post.body, body.as_bytes());
}

#[test]
fn content_length_counts_bytes_not_characters() {
    let post = post_request("é".as_bytes(), "http://x");
    assert_eq!(post.headers[1], ("content-length".to_string(), "2".to_string()));
    let post = post_request(&[], "http://x");
    assert_eq!(post.headers[1], ("content-length".to_string(), "0".to_string()));
    assert!(post.body.is_empty());
}

#[test]
fn response_text_is_what_the_server_sent() {
    let response = read_response(Exchange::Received { bytes: "héllo".as_bytes().to_vec() });
    assert_eq!(response, Ok("héllo".to_string()));
    let response = read_response(Exchange::Received { bytes: Vec::new() });
    assert_eq!(response, Ok(String::new()));
}

#[test]
fn each_transport_failure_has_its_message() {
    assert_eq!(
        read_response(Exchange::ClientFailed { detail: "ESP_ERR_NO_MEM".to_string() }),
        Err(error("ESP_ERR_NO_MEM"))
    );
    assert_eq!(
        read_response(Exchange::ConnectFailed { detail: "Some(EspIOError(-1))".to_string() }),
        Err(error("connection error: Some(EspIOError(-1))"))
    );
    assert_eq!(
        read_response(Exchange::WriteFailed),
        Err(error("connection error while trying to write all"))
    );
    assert_eq!(
        read_response(Exchange::FlushFailed),
        Err(error("connection error while trying to flush"))
    );
    assert_eq!(
        read_response(Exchange::SubmitFailed),
        Err(error("connection error while trying to read response"))
    );
    assert_eq!(
        read_response(Exchange::ReadFailed { detail: "Some(EspIOError(-2))".to_string() }),
        Err(error("connection error while trying to read response: Some(EspIOError(-2))"))
    );
}

#[test]
fn response_that_is_not_utf8_is_a_transport_error() {
    let bytes = vec![b'o', b'k', 0xFF, b'!'];
    let expected = format!("{:?}", std::str::from_utf8(&bytes).unwrap_err());
    assert_eq!(read_response(Exchange::Received { bytes }), Err(error(&expected)));
    assert_eq!(expected, "Utf8Error { valid_up_to: 2, error_len: Some(1) }");
}

#[test]
fn response_is_read_up_to_the_buffer_size() {
    assert_eq!(RESPONSE_BUFFER_SIZE, 4086);
    let exact = vec![b'a'; 4086];
    assert_eq!(read_response(Exchange::Received { bytes: exact }), Ok("a".repeat(4086)));
    let longer = vec![b'a'; 5000];
    assert_eq!(read_response(Exchange::Received { bytes: longer }), Ok("a".repeat(4086)));
    let shorter = vec![b'a'; 4085];
    assert_eq!(read_response(Exchange::Received { bytes: shorter }), Ok("a".repeat(4085)));
}

#[test]
fn character_cut_by_the_buffer_is_not_text() {
    let mut bytes = vec![b'a'; 4085];
    bytes.extend_from_slice("é".as_bytes());
    assert_eq!(bytes.len(), 4087);
    let expected = format!("{:?}", std::str::from_utf8(&bytes[..4086]).unwrap_err());
    assert_eq!(read_response(Exchange::Received { bytes }), Err(error(&expected)));
}

#[test]
fn garbage_after_the_buffer_is_not_looked_at() {
    let mut bytes = vec![b'a'; 4086];
    bytes.push(0xFF);
    assert_eq!(read_response(Exchange::Received { bytes }), Ok("a".repeat(4086)));
}

#[test]
fn delivery_drops_the_response() {
    assert_eq!(delivered(Exchange::Received { bytes: b"anything".to_vec() }), Ok(()));
    assert_eq!(
        delivered(Exchange::WriteFailed),
        Err(error("connection error while trying to write all"))
    );
    assert!(delivered(Exchange::Received { bytes: vec![0xC0] }).is_err());
}

#[test]
fn configuration_response_wraps_the_transport_error() {
    assert_eq!(
        configuration_response(Exchange::Received { bytes: b"{}".to_vec() }),
        Ok("{}".to_string())
    );
    assert_eq!(
        configuration_response(Exchange::FlushFailed),
        Err(ConfigError::Transport(error("connection error while trying to flush")))
    );
}

#[test]
fn configuration_is_accepted_with_a_known_unit_only() {
    assert_eq!(accept_configuration(Ok(configuration("C"))), Ok(configuration("C")));
    assert_eq!(accept_configuration(Ok(configuration("F"))), Ok(configuration("F")));
    for unit in ["K", "", "c", "f", "CF", "C ", "Celsius"] {
        assert_eq!(
            accept_configuration(Ok(configuration(unit))),
            Err(ConfigError::UnknownUnit { unit: unit.to_string() })
        );
    }
    assert_eq!(
        accept_configuration(Err("missing field `alertEndpoint`".to_string())),
        Err(ConfigError::Malformed { detail: "missing field `alertEndpoint`".to_string() })
    );
}

#[test]
fn default_configuration_is_built_in_and_ignores_the_error() {
    let expected = Configuration {
        alert_endpoint: "http://192.168.1.102:8080/api/v1/weather-sensor/submit".to_string(),
        i_am_alive_endpoint: "http://192.168.1.102:8080/api/v1/i-am-alive/notify".to_string(),
        temperature_sensor_unit_of_measure: "C".to_string(),
        weather_sensor_supply_interval_seconds: 30,
    };
    assert_eq!(
        get_default_configuration(ConfigError::Transport(error("connection error"))),
        expected
    );
    assert_eq!(
        get_default_configuration(ConfigError::Malformed { detail: "EOF".to_string() }),
        expected
    );
    assert_eq!(
        get_default_configuration(ConfigError::UnknownUnit { unit: "K".to_string() }),
        expected
    );
    assert_eq!(
        fallback_configuration(&weather_sensor::config::Settings::compiled_in()),
        expected
    );
}

#[test]
fn heartbeat_carries_the_identity_to_its_endpoint() {
    let client = ClientService::new("http://x/a", "http://x/b");
    let request = client.send_i_am_alive("AB:0D:EF:12:34:56");
    assert_eq!(request.url, "http://x/b");
    match request.payload {
        Payload::Heartbeat(heartbeat) => assert_eq!(heartbeat.mac_address(), "AB:0D:EF:12:34:56"),
        other => panic!("unexpected payload {:?}", other),
    }
}

#[test]
fn alert_carries_the_readings_to_its_endpoint() {
    let client = ClientService::new("http://x/a", "http://x/b");
    let temperature = Measurement::from_bits(21.5f32.to_bits());
    let humidity = Measurement::from_bits(44.0f32.to_bits());
    let request = client.send_alert(
        "AB:0D:EF:12:34:56",
        Some(temperature),
        Some(humidity),
        None,
        Some(5),
        Some(true),
    );
    assert_eq!(request.url, "http://x/a");
    match request.payload {
        Payload::Submission(submission) => {
            assert_eq!(submission.mac_address(), "AB:0D:EF:12:34:56");
            assert_eq!(submission.temperature(), Some(temperature));
            assert_eq!(submission.humidity(), Some(humidity));
            assert_eq!(submission.pressure(), None);
            assert_eq!(submission.lux(), Some(5));
            assert_eq!(submission.light(), Some(true));
        }
        other => panic!("unexpected payload {:?}", other),
    }
}

#[test]
fn configuration_request_is_keyed_by_the_identity() {
    let request = get_configuration("http://server/configuration", "AB:0D:EF:12:34:56");
    assert_eq!(request.url, "http://server/configuration");
    match request.payload {
        Payload::Configuration(request) => assert_eq!(request.mac_address(), "AB:0D:EF:12:34:56"),
        other => panic!("unexpected payload {:?}", other),
    }
}

#[test]
fn registration_request_describes_the_device() {
    let request =
        register_device("http://server/register", "AB:0D:EF:12:34:56", "SENSOR", "attic", "roof");
    assert_eq!(request.url, "http://server/register");
    match request.payload {
        Payload::Registration(request) => {
            assert_eq!(request.mac_address(), "AB:0D:EF:12:34:56");
            assert_eq!(request.device_type(), "SENSOR");
            assert_eq!(request.name(), "attic");
            assert_eq!(request.description(), "roof");
        }
        other => panic!("unexpected payload {:?}", other),
    }
}
