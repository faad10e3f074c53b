//! The telemetry client: what is posted where, how a post is framed, and what
//! its outcome means. The connection itself is made elsewhere; one post is
//! attempted exactly once.

use crate::config::Settings;
use crate::config::SettingsView;
use crate::dto::config_request::ConfigRequest;
use crate::dto::config_request::ConfigRequestView;
use crate::dto::config_response::Configuration;
use crate::dto::config_response::ConfigurationView;
use crate::dto::register_device::RegisterDeviceDTO;
use crate::dto::register_device::RegisterDeviceView;
use crate::dto::request_i_am_alive::RequestIAmAlive;
use crate::dto::request_i_am_alive::RequestIAmAliveView;
use crate::dto::request_submit::Measurement;
use crate::dto::request_submit::RequestSubmit;
use crate::dto::request_submit::RequestSubmitView;
use vstd::prelude::*;
use vstd::slice::slice_subrange;
use vstd::slice::slice_to_vec;
use vstd::string::StringExecFns;
use vstd::utf8::decode_utf8;
use vstd::utf8::valid_utf8;

verus! {

/// Number of bytes of a response that are read; what follows is ignored.
pub const RESPONSE_BUFFER_SIZE: usize = 4086;

/// A post that did not give a readable response, with the reason in words.
#[derive(Debug, Clone, PartialEq, Eq)]
pub struct TransportError {
    pub message: String,
}

impl View for TransportError {
    type V = Seq<char>;

    open spec fn view(&self) -> Seq<char> {
        self.message@
    }
}

/// Why the server gave no usable configuration.
#[derive(Debug, Clone, PartialEq, Eq)]
pub enum ConfigError {
    /// The post itself failed.
    Transport(TransportError),
    /// The response is not a configuration.
    Malformed { detail: String },
    /// The response names a unit that is neither `"C"` nor `"F"`.
    UnknownUnit { unit: String },
}

pub enum ConfigErrorView {
    Transport(Seq<char>),
    Malformed { detail: Seq<char> },
    UnknownUnit { unit: Seq<char> },
}

impl View for ConfigError {
    type V = ConfigErrorView;

    open spec fn view(&self) -> ConfigErrorView {
        match self {
            ConfigError::Transport(e) => ConfigErrorView::Transport(e@),
            ConfigError::Malformed { detail } => ConfigErrorView::Malformed { detail: detail@ },
            ConfigError::UnknownUnit { unit } => ConfigErrorView::UnknownUnit { unit: unit@ },
        }
    }
}

/// What a post carries.
#[derive(Debug, Clone, PartialEq, Eq)]
pub enum Payload {
    Configuration(ConfigRequest),
    Registration(RegisterDeviceDTO),
    Heartbeat(RequestIAmAlive),
    Submission(RequestSubmit),
}

pub enum PayloadView {
    Configuration(ConfigRequestView),
    Registration(RegisterDeviceView),
    Heartbeat(RequestIAmAliveView),
    Submission(RequestSubmitView),
}

impl View for Payload {
    type V = PayloadView;

    open spec fn view(&self) -> PayloadView {
        match self {
            Payload::Configuration(request) => PayloadView::Configuration(request@),
            Payload::Registration(request) => PayloadView::Registration(request@),
            Payload::Heartbeat(request) => PayloadView::Heartbeat(request@),
            Payload::Submission(request) => PayloadView::Submission(request@),
        }
    }
}

/// One post to make: the payload goes to `url` as JSON.
#[derive(Debug, Clone, PartialEq, Eq)]
pub struct PostRequest {
    pub url: String,
    pub payload: Payload,
}

pub struct PostRequestView {
    pub url: Seq<char>,
    pub payload: PayloadView,
}

impl View for PostRequest {
    type V = PostRequestView;

    open spec fn view(&self) -> PostRequestView {
        PostRequestView { url: self.url@, payload: self.payload@ }
    }
}

/// A post as it goes over the wire.
#[derive(Debug, Clone, PartialEq, Eq)]
pub struct HttpPost {
    pub url: String,
    pub headers: Vec<(String, String)>,
    pub body: Vec<u8>,
}

pub struct HttpPostView {
    pub url: Seq<char>,
    pub headers: Seq<(Seq<char>, Seq<char>)>,
    pub body: Seq<u8>,
}

impl View for HttpPost {
    type V = HttpPostView;

    open spec fn view(&self) -> HttpPostView {
        HttpPostView {
            url: self.url@,
            headers: Seq::new(
                self.headers@.len(),
                |i: int| (self.headers@[i].0@, self.headers@[i].1@),
            ),
            body: self.body@,
        }
    }
}

/// How far a post got, as the transport reports it.
#[derive(Debug, Clone, PartialEq, Eq)]
pub enum Exchange {
    /// No connection could be set up; `detail` is the transport's message.
    ClientFailed { detail: String },
    /// The request could not be opened; `detail` describes the fault.
    ConnectFailed { detail: String },
    /// The body could not be written.
    WriteFailed,
    /// The body could not be flushed.
    FlushFailed,
    /// The request went out and no response came.
    SubmitFailed,
    /// The response could not be read; `detail` describes the fault.
    ReadFailed { detail: String },
    /// The bytes of the response, from its start.
    Received { bytes: Vec<u8> },
}

pub enum ExchangeView {
    ClientFailed { detail: Seq<char> },
    ConnectFailed { detail: Seq<char> },
    WriteFailed,
    FlushFailed,
    SubmitFailed,
    ReadFailed { detail: Seq<char> },
    Received { bytes: Seq<u8> },
}

impl View for Exchange {
    type V = ExchangeView;

    open spec fn view(&self) -> ExchangeView {
        match self {
            Exchange::ClientFailed { detail } => ExchangeView::ClientFailed { detail: detail@ },
            Exchange::ConnectFailed { detail } => ExchangeView::ConnectFailed { detail: detail@ },
            Exchange::WriteFailed => ExchangeView::WriteFailed,
            Exchange::FlushFailed => ExchangeView::FlushFailed,
            Exchange::SubmitFailed => ExchangeView::SubmitFailed,
            Exchange::ReadFailed { detail } => ExchangeView::ReadFailed { detail: detail@ },
            Exchange::Received { bytes } => ExchangeView::Received { bytes: bytes@ },
        }
    }
}

/// The decimal digits of a number, most significant first.
pub open spec fn decimal_text(n: nat) -> Seq<char>
    decreases n,
{
    let digits = seq!['0', '1', '2', '3', '4', '5', '6', '7', '8', '9'];
    if n < 10 {
        seq![digits[n as int]]
    } else {
        decimal_text(n / 10).push(digits[(n % 10) as int])
    }
}

fn decimal_digit(d: usize) -> (digit: &'static str)
    requires
        d < 10,
    ensures
        digit@ == decimal_text(d as nat),
{
    proof {
        reveal_strlit("0");
        reveal_strlit("1");
        reveal_strlit("2");
        reveal_strlit("3");
        reveal_strlit("4");
        reveal_strlit("5");
        reveal_strlit("6");
        reveal_strlit("7");
        reveal_strlit("8");
        reveal_strlit("9");
    }
    let digit = if d == 0 {
        "0"
    } else if d == 1 {
        "1"
    } else if d == 2 {
        "2"
    } else if d == 3 {
        "3"
    } else if d == 4 {
        "4"
    } else if d == 5 {
        "5"
    } else if d == 6 {
        "6"
    } else if d == 7 {
        "7"
    } else if d == 8 {
        "8"
    } else {
        "9"
    };
    assert(digit@ =~= decimal_text(d as nat));
    digit
}

/// A number in decimal, as it stands in a `content-length` header.
pub fn decimal_string(n: usize) -> (text: String)
    ensures
        text@ == decimal_text(n as nat),
    decreases n,
{
    if n < 10 {
        decimal_digit(n).to_owned()
    } else {
        let last = decimal_digit(n % 10);
        let text = decimal_string(n / 10).concat(last);
        assert(text@ =~= decimal_text(n as nat));
        text
    }
}

/// The post that carries `payload` to `url`: the payload is announced as
/// JSON, with its length in bytes.
pub open spec fn framed(payload: Seq<u8>, url: Seq<char>) -> HttpPostView {
    HttpPostView {
        url,
        headers: seq![
            ("content-type"@, "application/json"@),
            ("content-length"@, decimal_text(payload.len())),
        ],
        body: payload,
    }
}

/// Frames one post.
pub fn post_request(payload: &[u8], url: &str) -> (post: HttpPost)
    ensures
        post@ == framed(payload@, url@),
{
    let mut headers: Vec<(String, String)> = Vec::new();
    headers.push(("content-type".to_owned(), "application/json".to_owned()));
    headers.push(("content-length".to_owned(), decimal_string(payload.len())));
    let post = HttpPost { url: url.to_owned(), headers, body: slice_to_vec(payload) };
    assert(post@.headers =~= framed(payload@, url@).headers);
    post
}

/// How `std::str::from_utf8` describes, through `Debug`, what is wrong with
/// bytes that are not UTF-8.
pub uninterp spec fn utf8_error_text(bytes: Seq<u8>) -> Seq<char>;

/// Calls `std::str::from_utf8`. Trusted: the call succeeds exactly on valid
/// UTF-8 and then gives the text that the bytes encode; otherwise the error it
/// returns, rendered with `{:?}`, is the text named `utf8_error_text`.
#[verifier::external_body]
fn text_from_utf8(bytes: &[u8]) -> (text: Result<String, String>)
    ensures
        text is Ok <==> valid_utf8(bytes@),
        text matches Ok(s) ==> s@ == decode_utf8(bytes@),
        text matches Err(e) ==> e@ == utf8_error_text(bytes@),
{
    match std::str::from_utf8(bytes) {
        Ok(s) => Ok(s.to_owned()),
        Err(e) => Err(format!("{:?}", e)),
    }
}

/// The part of a response that is looked at: its first
/// `RESPONSE_BUFFER_SIZE` bytes.
pub open spec fn kept(bytes: Seq<u8>) -> Seq<u8> {
    if bytes.len() <= RESPONSE_BUFFER_SIZE {
        bytes
    } else {
        bytes.take(RESPONSE_BUFFER_SIZE as int)
    }
}

/// What a post gave: the text of the response, or the message of the
/// transport error. The status line of the response plays no part.
pub open spec fn response_text(exchange: ExchangeView) -> Result<Seq<char>, Seq<char>> {
    match exchange {
        ExchangeView::ClientFailed { detail } => Err(detail),
        ExchangeView::ConnectFailed { detail } => Err("connection error: "@ + detail),
        ExchangeView::WriteFailed => Err("connection error while trying to write all"@),
        ExchangeView::FlushFailed => Err("connection error while trying to flush"@),
        ExchangeView::SubmitFailed => Err("connection error while trying to read response"@),
        ExchangeView::ReadFailed { detail } => Err(
            "connection error while trying to read response: "@ + detail,
        ),
        ExchangeView::Received { bytes } => if valid_utf8(kept(bytes)) {
            Ok(decode_utf8(kept(bytes)))
        } else {
            Err(utf8_error_text(kept(bytes)))
        },
    }
}

pub open spec fn text_result_view(result: Result<String, TransportError>) -> Result<
    Seq<char>,
    Seq<char>,
> {
    match result {
        Ok(text) => Ok(text@),
        Err(e) => Err(e@),
    }
}

/// Reads the outcome of a post.
pub fn read_response(exchange: Exchange) -> (response: Result<String, TransportError>)
    ensures
        text_result_view(response) == response_text(exchange@),
{
    match exchange {
        Exchange::ClientFailed { detail } => Err(TransportError { message: detail }),
        Exchange::ConnectFailed { detail } => Err(
            TransportError { message: "connection error: ".to_owned().concat(detail.as_str()) },
        ),
        Exchange::WriteFailed => Err(
            TransportError { message: "connection error while trying to write all".to_owned() },
        ),
        Exchange::FlushFailed => Err(
            TransportError { message: "connection error while trying to flush".to_owned() },
        ),
        Exchange::SubmitFailed => Err(
            TransportError {
                message: "connection error while trying to read response".to_owned(),
            },
        ),
        Exchange::ReadFailed { detail } => Err(
            TransportError {
                message: "connection error while trying to read response: ".to_owned().concat(
                    detail.as_str(),
                ),
            },
        ),
        Exchange::Received { bytes } => {
            let length = if bytes.len() <= RESPONSE_BUFFER_SIZE {
                bytes.len()
            } else {
                RESPONSE_BUFFER_SIZE
            };
            let head = slice_subrange(bytes.as_slice(), 0, length);
            assert(head@ =~= kept(bytes@));
            match text_from_utf8(head) {
                Ok(text) => Ok(text),
                Err(e) => Err(TransportError { message: e }),
            }
        },
    }
}

/// Whether a post was delivered: its response, once readable, is dropped.
pub open spec fn delivery(exchange: ExchangeView) -> Result<(), Seq<char>> {
    match response_text(exchange) {
        Ok(_) => Ok(()),
        Err(e) => Err(e),
    }
}

pub open spec fn delivery_view(result: Result<(), TransportError>) -> Result<(), Seq<char>> {
    match result {
        Ok(_) => Ok(()),
        Err(e) => Err(e@),
    }
}

/// Says whether a heartbeat or a submission was delivered.
pub fn delivered(exchange: Exchange) -> (result: Result<(), TransportError>)
    ensures
        delivery_view(result) == delivery(exchange@),
{
    match read_response(exchange) {
        Ok(_) => Ok(()),
        Err(e) => Err(e),
    }
}

/// The two endpoints the readings and the heartbeat go to.
#[derive(Debug, Clone, PartialEq, Eq)]
pub struct ClientService {
    alert_url: String,
    i_am_alive_url: String,
}

pub struct ClientServiceView {
    pub alert_url: Seq<char>,
    pub i_am_alive_url: Seq<char>,
}

impl View for ClientService {
    type V = ClientServiceView;

    closed spec fn view(&self) -> ClientServiceView {
        ClientServiceView { alert_url: self.alert_url@, i_am_alive_url: self.i_am_alive_url@ }
    }
}

impl ClientService {
    pub fn new(alert_url: &str, i_am_alive_url: &str) -> (service: ClientService)
        ensures
            service@ == (ClientServiceView {
                alert_url: alert_url@,
                i_am_alive_url: i_am_alive_url@,
            }),
    {
        ClientService {
            alert_url: alert_url.to_owned(),
            i_am_alive_url: i_am_alive_url.to_owned(),
        }
    }

    /// The post that submits one set of readings to the alert endpoint.
    pub fn send_alert(
        &self,
        mac_address: &str,
        temperature: Option<Measurement>,
        humidity: Option<Measurement>,
        pressure: Option<Measurement>,
        lux: Option<u32>,
        light: Option<bool>,
    ) -> (request: PostRequest)
        ensures
            request@ == (PostRequestView {
                url: self@.alert_url,
                payload: PayloadView::Submission(
                    RequestSubmitView {
                        mac_address: mac_address@,
                        temperature,
                        humidity,
                        pressure,
                        lux,
                        light,
                    },
                ),
            }),
    {
        PostRequest {
            url: self.alert_url.clone(),
            payload: Payload::Submission(
                RequestSubmit::new(
                    mac_address.to_owned(),
                    temperature,
                    humidity,
                    pressure,
                    lux,
                    light,
                ),
            ),
        }
    }

    /// The post that tells the heartbeat endpoint that the device is alive:
    /// the identity and nothing else.
    pub fn send_i_am_alive(&self, mac_address: &str) -> (request: PostRequest)
        ensures
            request@ == (PostRequestView {
                url: self@.i_am_alive_url,
                payload: PayloadView::Heartbeat(RequestIAmAliveView { mac_address: mac_address@ }),
            }),
    {
        PostRequest {
            url: self.i_am_alive_url.clone(),
            payload: Payload::Heartbeat(RequestIAmAlive::new(mac_address.to_owned())),
        }
    }
}

/// The post that asks `configuration_uri` for the configuration of the device
/// `mac_address`.
pub fn get_configuration(configuration_uri: &str, mac_address: &str) -> (request: PostRequest)
    ensures
        request@ == (PostRequestView {
            url: configuration_uri@,
            payload: PayloadView::Configuration(ConfigRequestView { mac_address: mac_address@ }),
        }),
{
    PostRequest {
        url: configuration_uri.to_owned(),
        payload: Payload::Configuration(ConfigRequest::new(mac_address.to_owned())),
    }
}

/// The post that registers the device `mac_address` at `url`.
pub fn register_device(
    url: &str,
    mac_address: &str,
    device_type: &str,
    name: &str,
    description: &str,
) -> (request: PostRequest)
    ensures
        request@ == (PostRequestView {
            url: url@,
            payload: PayloadView::Registration(
                RegisterDeviceView {
                    mac_address: mac_address@,
                    device_type: device_type@,
                    name: name@,
                    description: description@,
                },
            ),
        }),
{
    PostRequest {
        url: url.to_owned(),
        payload: Payload::Registration(
            RegisterDeviceDTO::new(
                mac_address.to_owned(),
                device_type.to_owned(),
                name.to_owned(),
                description.to_owned(),
            ),
        ),
    }
}

/// What the post for the configuration gave: the body to decode, or the
/// transport error as the reason why there is no configuration.
pub open spec fn configuration_body(exchange: ExchangeView) -> Result<Seq<char>, ConfigErrorView> {
    match response_text(exchange) {
        Ok(body) => Ok(body),
        Err(message) => Err(ConfigErrorView::Transport(message)),
    }
}

pub open spec fn body_result_view(result: Result<String, ConfigError>) -> Result<
    Seq<char>,
    ConfigErrorView,
> {
    match result {
        Ok(body) => Ok(body@),
        Err(e) => Err(e@),
    }
}

/// Reads the outcome of the post for the configuration.
pub fn configuration_response(exchange: Exchange) -> (result: Result<String, ConfigError>)
    ensures
        body_result_view(result) == configuration_body(exchange@),
{
    match read_response(exchange) {
        Ok(body) => Ok(body),
        Err(e) => Err(ConfigError::Transport(e)),
    }
}

/// What decoding a response body gave: the fields of a configuration, or the
/// decoder's complaint.
pub type Decoded = Result<Configuration, String>;

pub type DecodedView = Result<ConfigurationView, Seq<char>>;

pub open spec fn decoded_view(decoded: Decoded) -> DecodedView {
    match decoded {
        Ok(configuration) => Ok(configuration@),
        Err(detail) => Err(detail@),
    }
}

/// A decoded body is the configuration if its unit is a known one.
pub open spec fn accepted(decoded: DecodedView) -> Result<ConfigurationView, ConfigErrorView> {
    match decoded {
        Ok(configuration) => if configuration.usable() {
            Ok(configuration)
        } else {
            Err(
                ConfigErrorView::UnknownUnit {
                    unit: configuration.temperature_sensor_unit_of_measure,
                },
            )
        },
        Err(detail) => Err(ConfigErrorView::Malformed { detail }),
    }
}

pub open spec fn configuration_result_view(result: Result<Configuration, ConfigError>) -> Result<
    ConfigurationView,
    ConfigErrorView,
> {
    match result {
        Ok(configuration) => Ok(configuration@),
        Err(e) => Err(e@),
    }
}

/// Accepts or refuses what the decoder made of a response body.
pub fn accept_configuration(decoded: Decoded) -> (result: Result<Configuration, ConfigError>)
    ensures
        configuration_result_view(result) == accepted(decoded_view(decoded)),
{
    match decoded {
        Ok(configuration) => {
            match configuration.temperature_unit() {
                Some(_) => Ok(configuration),
                None => Err(
                    ConfigError::UnknownUnit {
                        unit: configuration.temperature_sensor_unit_of_measure,
                    },
                ),
            }
        },
        Err(detail) => Err(ConfigError::Malformed { detail }),
    }
}

/// The configuration a deployment runs on when the server gives none.
pub open spec fn default_configuration(settings: SettingsView) -> ConfigurationView {
    ConfigurationView {
        alert_endpoint: settings.default_alert_url,
        i_am_alive_endpoint: settings.default_i_am_alive_url,
        temperature_sensor_unit_of_measure: settings.temperature_sensor_unit_of_measure,
        weather_sensor_supply_interval_seconds: settings.weather_sensor_supply_interval_seconds,
    }
}

/// Builds the configuration that `settings` falls back to.
pub fn fallback_configuration(settings: &Settings) -> (configuration: Configuration)
    ensures
        configuration@ == default_configuration(settings@),
{
    Configuration {
        alert_endpoint: settings.default_alert_url.clone(),
        i_am_alive_endpoint: settings.default_i_am_alive_url.clone(),
        temperature_sensor_unit_of_measure: settings.temperature_sensor_unit_of_measure.clone(),
        weather_sensor_supply_interval_seconds: settings.weather_sensor_supply_interval_seconds,
    }
}

/// The built-in configuration of this build. The error that made it necessary
/// does not change it.
pub fn get_default_configuration(e: ConfigError) -> (configuration: Configuration)
    ensures
        configuration@ == default_configuration(crate::config::compiled_in_settings()),
{
    let settings = Settings::compiled_in();
    fallback_configuration(&settings)
}

} // verus!
