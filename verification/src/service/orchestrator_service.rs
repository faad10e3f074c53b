//! The lifecycle of the device, from power-on to the reporting loop, as a
//! state machine. The machine never touches the hardware: in every state it
//! names the one thing to do next, and it moves on when told what came of it.
//! Whoever drives the board performs the action and hands back the event.

use crate::config::Settings;
use crate::config::SettingsView;
use crate::dto::config_request::ConfigRequestView;
use crate::dto::config_response::Configuration;
use crate::dto::config_response::ConfigurationView;
use crate::dto::register_device::RegisterDeviceView;
use crate::dto::request_i_am_alive::RequestIAmAliveView;
use crate::dto::request_submit::Measurement;
use crate::dto::request_submit::RequestSubmitView;
use crate::service::client_service::accept_configuration;
use crate::service::client_service::accepted;
use crate::service::client_service::configuration_body;
use crate::service::client_service::configuration_response;
use crate::service::client_service::decoded_view;
use crate::service::client_service::default_configuration;
use crate::service::client_service::delivered;
use crate::service::client_service::delivery;
use crate::service::client_service::fallback_configuration;
use crate::service::client_service::get_configuration;
use crate::service::client_service::register_device;
use crate::service::client_service::ClientService;
use crate::service::client_service::Decoded;
use crate::service::client_service::DecodedView;
use crate::service::client_service::Exchange;
use crate::service::client_service::ExchangeView;
use crate::service::client_service::PayloadView;
use crate::service::client_service::PostRequest;
use crate::service::client_service::PostRequestView;
use crate::service::peripheral_service::climate_view;
use crate::service::peripheral_service::link_status;
use crate::service::peripheral_service::mac_address_text;
use crate::service::peripheral_service::sampling;
use crate::service::peripheral_service::station_settings;
use crate::service::peripheral_service::BlinkPattern;
use crate::service::peripheral_service::ClimateReading;
use crate::service::peripheral_service::ClimateReadingView;
use crate::service::peripheral_service::LinkStatus;
use crate::service::peripheral_service::PeripheralService;
use crate::service::peripheral_service::Sampling;
use crate::service::peripheral_service::SamplingView;
use crate::service::peripheral_service::WifiClientConfiguration;
use crate::service::peripheral_service::WifiClientConfigurationView;
use crate::service::peripheral_service::TIME_LONG;
use crate::service::peripheral_service::TIME_SHORT;
use crate::util::thread_util;
use crate::util::thread_util::interval_millis;
use crate::util::thread_util::millis_of;
use vstd::prelude::*;

verus! {

/// Number of reads of the temperature and humidity sensor that one cycle may
/// make.
pub const CLIMATE_READ_ATTEMPTS: u32 = 100;

/// Illuminance, in lux, above which it counts as light.
pub const LIGHT_THRESHOLD_LUX: u32 = 3;

/// The stages of the lifecycle.
#[derive(Debug, Clone, Copy, PartialEq, Eq, Structural)]
pub enum Stage {
    Booting,
    ConnectingWifi,
    ResolvingIdentity,
    ResolvingConfig,
    SyncingClock,
    Reporting,
    Halted,
}

/// Where the machine stands: each phase waits for the outcome of one action.
#[derive(Debug, Clone, Copy, PartialEq, Eq, Structural)]
pub enum Phase {
    /// The hardware handles are being acquired.
    Booting,
    /// An attempt to join the network is under way.
    ConnectingWifi,
    /// The attempt failed; the node pauses before the next one.
    ConnectBackoff,
    /// The hardware address is being read.
    ResolvingIdentity,
    /// The registration is being posted.
    Registering,
    /// The configuration request is being posted.
    ResolvingConfig,
    /// The response to it is being decoded.
    DecodingConfig,
    /// The indicator shows that the built-in configuration is in use.
    AnnouncingFallback,
    /// The indicator shows that the boot is complete.
    AnnouncingBoot,
    /// The clock synchronisation is being started.
    StartingClock,
    /// The clock synchronisation is being looked at.
    AwaitingClock,
    /// It was not complete; the node pauses before the next look.
    ClockBackoff,
    /// The link is being checked.
    CheckingLink,
    /// The link was down; the one attempt to join again is under way.
    Reconnecting,
    /// That attempt failed; the supervisor of the link shows it.
    AnnouncingReconnectFailure,
    /// The reporting loop shows that it waits for the link.
    AnnouncingOffline,
    /// The node pauses before it checks the link again.
    OfflineBackoff,
    /// The heartbeat is being posted.
    SendingHeartbeat,
    /// The indicator shows that the heartbeat did not go out.
    AnnouncingHeartbeatFailure,
    /// The light sensor is being read.
    ReadingLux,
    /// The temperature and humidity sensor is being read.
    ReadingClimate,
    /// The readings are being posted.
    Submitting,
    /// The indicator shows that the readings went out.
    AnnouncingSubmitted,
    /// The indicator shows that the readings did not go out.
    AnnouncingSubmitFailure,
    /// The node pauses until the next cycle.
    Sleeping,
    /// The node has stopped for good.
    Halted,
}

/// The stage a phase belongs to.
pub open spec fn stage_of(phase: Phase) -> Stage {
    match phase {
        Phase::Booting => Stage::Booting,
        Phase::ConnectingWifi | Phase::ConnectBackoff => Stage::ConnectingWifi,
        Phase::ResolvingIdentity | Phase::Registering => Stage::ResolvingIdentity,
        Phase::ResolvingConfig
        | Phase::DecodingConfig
        | Phase::AnnouncingFallback
        | Phase::AnnouncingBoot => Stage::ResolvingConfig,
        Phase::StartingClock | Phase::AwaitingClock | Phase::ClockBackoff => Stage::SyncingClock,
        Phase::Halted => Stage::Halted,
        _ => Stage::Reporting,
    }
}

/// What came of the action the machine asked for.
#[derive(Debug, PartialEq, Eq)]
pub enum Event {
    /// The hardware handles are acquired.
    HardwareReady,
    /// An attempt to join the network ended; `true` if the node is on it.
    Connection(bool),
    /// A pause is over.
    Elapsed,
    /// The hardware address of the station interface.
    Identity([u8; 6]),
    /// A post ended.
    Exchanged(Exchange),
    /// A response body was decoded, or could not be.
    Decoded(Decoded),
    /// The indicator has shown its signal.
    Signalled,
    /// The clock synchronisation was started; `false` if it could not be.
    ClockStarted(bool),
    /// The clock synchronisation was looked at; `true` if it is complete.
    ClockCompleted(bool),
    /// The link was checked; `true` if the node is associated.
    Link(bool),
    /// The illuminance the light sensor reports, in lux.
    Lux(u32),
    /// What a read of the temperature and humidity sensor gave.
    Climate(ClimateReading),
}

pub enum EventView {
    HardwareReady,
    Connection(bool),
    Elapsed,
    Identity(Seq<u8>),
    Exchanged(ExchangeView),
    Decoded(DecodedView),
    Signalled,
    ClockStarted(bool),
    ClockCompleted(bool),
    Link(bool),
    Lux(u32),
    Climate(ClimateReadingView),
}

impl View for Event {
    type V = EventView;

    open spec fn view(&self) -> EventView {
        match self {
            Event::HardwareReady => EventView::HardwareReady,
            Event::Connection(connected) => EventView::Connection(*connected),
            Event::Elapsed => EventView::Elapsed,
            Event::Identity(mac) => EventView::Identity(mac@),
            Event::Exchanged(exchange) => EventView::Exchanged(exchange@),
            Event::Decoded(decoded) => EventView::Decoded(decoded_view(*decoded)),
            Event::Signalled => EventView::Signalled,
            Event::ClockStarted(started) => EventView::ClockStarted(*started),
            Event::ClockCompleted(completed) => EventView::ClockCompleted(*completed),
            Event::Link(connected) => EventView::Link(*connected),
            Event::Lux(lux) => EventView::Lux(*lux),
            Event::Climate(reading) => EventView::Climate(climate_view(*reading)),
        }
    }
}

/// The one thing to do next.
#[derive(Debug, Clone, PartialEq, Eq)]
pub enum Action {
    /// Acquire the indicator, the sensors and the network interface. A board
    /// that cannot is broken: there is no event for that.
    AcquireHardware,
    /// Make one attempt to join the network; answer with `Connection`.
    Connect(WifiClientConfiguration),
    /// Pause; answer with `Elapsed`.
    Sleep { millis: u64 },
    /// Read the hardware address; answer with `Identity`.
    ReadIdentity,
    /// Make one post; answer with `Exchanged`.
    Post(PostRequest),
    /// Decode a response body as a configuration; answer with `Decoded`.
    Decode { body: String },
    /// Show a signal on the indicator; answer with `Signalled`.
    Signal(BlinkPattern),
    /// Start the clock synchronisation; answer with `ClockStarted`.
    StartClock,
    /// Look at the clock synchronisation; answer with `ClockCompleted`.
    PollClock,
    /// Check the link; answer with `Link`.
    CheckLink,
    /// Read the light sensor; answer with `Lux`.
    ReadLux,
    /// Read the temperature and humidity sensor; answer with `Climate`.
    ReadClimate,
    /// Stop. Nothing is done any more.
    Halt,
}

pub enum ActionView {
    AcquireHardware,
    Connect(WifiClientConfigurationView),
    Sleep { millis: u64 },
    ReadIdentity,
    Post(PostRequestView),
    Decode { body: Seq<char> },
    Signal(BlinkPattern),
    StartClock,
    PollClock,
    CheckLink,
    ReadLux,
    ReadClimate,
    Halt,
}

impl View for Action {
    type V = ActionView;

    open spec fn view(&self) -> ActionView {
        match self {
            Action::AcquireHardware => ActionView::AcquireHardware,
            Action::Connect(configuration) => ActionView::Connect(configuration@),
            Action::Sleep { millis } => ActionView::Sleep { millis: *millis },
            Action::ReadIdentity => ActionView::ReadIdentity,
            Action::Post(request) => ActionView::Post(request@),
            Action::Decode { body } => ActionView::Decode { body: body@ },
            Action::Signal(pattern) => ActionView::Signal(*pattern),
            Action::StartClock => ActionView::StartClock,
            Action::PollClock => ActionView::PollClock,
            Action::CheckLink => ActionView::CheckLink,
            Action::ReadLux => ActionView::ReadLux,
            Action::ReadClimate => ActionView::ReadClimate,
            Action::Halt => ActionView::Halt,
        }
    }
}

/// The state of the lifecycle.
#[derive(Debug, PartialEq, Eq)]
pub struct Lifecycle {
    settings: Settings,
    phase: Phase,
    mac_address: String,
    configuration: Configuration,
    body: String,
    lux: u32,
    climate_reads_left: u32,
    temperature: Option<Measurement>,
    humidity: Option<Measurement>,
}

pub struct LifecycleView {
    pub settings: SettingsView,
    pub phase: Phase,
    /// The identity of the device; empty until it is resolved.
    pub mac_address: Seq<char>,
    /// The configuration in force: the built-in one until the server's is
    /// accepted.
    pub configuration: ConfigurationView,
    /// The response to the configuration request, while it is being decoded.
    pub body: Seq<char>,
    /// The illuminance read in this cycle.
    pub lux: u32,
    /// The reads of the temperature and humidity sensor that this cycle may
    /// still make.
    pub climate_reads_left: u32,
    /// The temperature and the humidity read in this cycle, if any.
    pub temperature: Option<Measurement>,
    pub humidity: Option<Measurement>,
}

impl View for Lifecycle {
    type V = LifecycleView;

    closed spec fn view(&self) -> LifecycleView {
        LifecycleView {
            settings: self.settings@,
            phase: self.phase,
            mac_address: self.mac_address@,
            configuration: self.configuration@,
            body: self.body@,
            lux: self.lux,
            climate_reads_left: self.climate_reads_left,
            temperature: self.temperature,
            humidity: self.humidity,
        }
    }
}

/// The state at power-on.
pub open spec fn initial(settings: SettingsView) -> LifecycleView {
    LifecycleView {
        settings,
        phase: Phase::Booting,
        mac_address: Seq::empty(),
        configuration: default_configuration(settings),
        body: Seq::empty(),
        lux: 0,
        climate_reads_left: 0,
        temperature: None,
        humidity: None,
    }
}

impl LifecycleView {
    /// The same state in another phase.
    pub open spec fn at(self, phase: Phase) -> LifecycleView {
        LifecycleView { phase, ..self }
    }

    /// The state after the remote configuration could not be had: a node that
    /// must have it halts; any other runs on the built-in one and says so.
    pub open spec fn unresolved(self) -> LifecycleView {
        if self.settings.is_remote_configuration_mandatory {
            self.at(Phase::Halted)
        } else {
            LifecycleView {
                configuration: default_configuration(self.settings),
                phase: Phase::AnnouncingFallback,
                ..self
            }
        }
    }

    /// The state after the temperature and humidity of this cycle are
    /// settled: a reading that failed leaves both absent.
    pub open spec fn sampled(self, reading: ClimateReadingView) -> LifecycleView {
        match reading {
            Ok(values) => LifecycleView {
                temperature: Some(values.0),
                humidity: Some(values.1),
                phase: Phase::Submitting,
                ..self
            },
            Err(_) => LifecycleView {
                temperature: None,
                humidity: None,
                phase: Phase::Submitting,
                ..self
            },
        }
    }

    /// The post that asks for the configuration of this device.
    pub open spec fn configuration_request(self) -> PostRequestView {
        PostRequestView {
            url: self.settings.configuration_url,
            payload: PayloadView::Configuration(
                ConfigRequestView { mac_address: self.mac_address },
            ),
        }
    }

    /// The post that registers this device; a deployment that registers
    /// nothing asks for its configuration instead.
    pub open spec fn registration_request(self) -> PostRequestView {
        match self.settings.registration {
            Some(registration) => PostRequestView {
                url: registration.url,
                payload: PayloadView::Registration(
                    RegisterDeviceView {
                        mac_address: self.mac_address,
                        device_type: registration.device_type,
                        name: registration.name,
                        description: registration.description,
                    },
                ),
            },
            None => self.configuration_request(),
        }
    }

    /// The heartbeat of this device.
    pub open spec fn heartbeat_request(self) -> PostRequestView {
        PostRequestView {
            url: self.configuration.i_am_alive_endpoint,
            payload: PayloadView::Heartbeat(RequestIAmAliveView { mac_address: self.mac_address }),
        }
    }

    /// The readings of this cycle: no pressure, since no sensor measures it,
    /// and light when the illuminance is above the threshold.
    pub open spec fn submission_request(self) -> PostRequestView {
        PostRequestView {
            url: self.configuration.alert_endpoint,
            payload: PayloadView::Submission(
                RequestSubmitView {
                    mac_address: self.mac_address,
                    temperature: self.temperature,
                    humidity: self.humidity,
                    pressure: None,
                    lux: Some(self.lux),
                    light: Some(self.lux > LIGHT_THRESHOLD_LUX),
                },
            ),
        }
    }
}

/// The action a state waits for.
pub open spec fn pending(s: LifecycleView) -> ActionView {
    match s.phase {
        Phase::Booting => ActionView::AcquireHardware,
        Phase::ConnectingWifi | Phase::Reconnecting => ActionView::Connect(
            station_settings(s.settings.wifi_ssid, s.settings.wifi_pass),
        ),
        Phase::ConnectBackoff => ActionView::Sleep { millis: TIME_LONG },
        Phase::ResolvingIdentity => ActionView::ReadIdentity,
        Phase::Registering => ActionView::Post(s.registration_request()),
        Phase::ResolvingConfig => ActionView::Post(s.configuration_request()),
        Phase::DecodingConfig => ActionView::Decode { body: s.body },
        Phase::AnnouncingFallback => ActionView::Signal(
            BlinkPattern { pulses: 3, millis: TIME_SHORT },
        ),
        Phase::AnnouncingBoot => ActionView::Signal(BlinkPattern { pulses: 1, millis: TIME_LONG }),
        Phase::StartingClock => ActionView::StartClock,
        Phase::AwaitingClock => ActionView::PollClock,
        Phase::ClockBackoff => ActionView::Sleep { millis: thread_util::TIME_SHORT },
        Phase::CheckingLink => ActionView::CheckLink,
        Phase::AnnouncingReconnectFailure | Phase::AnnouncingOffline => ActionView::Signal(
            BlinkPattern { pulses: 3, millis: TIME_LONG },
        ),
        Phase::OfflineBackoff => ActionView::Sleep { millis: thread_util::TIME_SHORT },
        Phase::SendingHeartbeat => ActionView::Post(s.heartbeat_request()),
        Phase::AnnouncingHeartbeatFailure => ActionView::Signal(
            BlinkPattern { pulses: 2, millis: TIME_SHORT },
        ),
        Phase::ReadingLux => ActionView::ReadLux,
        Phase::ReadingClimate => ActionView::ReadClimate,
        Phase::Submitting => ActionView::Post(s.submission_request()),
        Phase::AnnouncingSubmitted => ActionView::Signal(
            BlinkPattern { pulses: 1, millis: TIME_SHORT },
        ),
        Phase::AnnouncingSubmitFailure => ActionView::Signal(
            BlinkPattern { pulses: 2, millis: TIME_LONG },
        ),
        Phase::Sleeping => ActionView::Sleep {
            millis: millis_of(s.configuration.weather_sensor_supply_interval_seconds),
        },
        Phase::Halted => ActionView::Halt,
    }
}

/// The state that follows `s` when the action it waits for ends in `e`. An
/// event that does not answer that action changes nothing.
pub open spec fn step(s: LifecycleView, e: EventView) -> LifecycleView {
    match (s.phase, e) {
        (Phase::Booting, EventView::HardwareReady) => s.at(Phase::ConnectingWifi),
        (Phase::ConnectingWifi, EventView::Connection(connected)) => if connected {
            s.at(Phase::ResolvingIdentity)
        } else {
            s.at(Phase::ConnectBackoff)
        },
        (Phase::ConnectBackoff, EventView::Elapsed) => s.at(Phase::ConnectingWifi),
        (Phase::ResolvingIdentity, EventView::Identity(mac)) => LifecycleView {
            mac_address: mac_address_text(mac),
            phase: if s.settings.registration is Some {
                Phase::Registering
            } else {
                Phase::ResolvingConfig
            },
            ..s
        },
        (Phase::Registering, EventView::Exchanged(_)) => s.at(Phase::ResolvingConfig),
        (Phase::ResolvingConfig, EventView::Exchanged(exchange)) => match configuration_body(
            exchange,
        ) {
            Ok(body) => LifecycleView { body, phase: Phase::DecodingConfig, ..s },
            Err(_) => s.unresolved(),
        },
        (Phase::DecodingConfig, EventView::Decoded(decoded)) => match accepted(decoded) {
            Ok(configuration) => LifecycleView { configuration, phase: Phase::AnnouncingBoot, ..s },
            Err(_) => s.unresolved(),
        },
        (Phase::AnnouncingFallback, EventView::Signalled) => s.at(Phase::AnnouncingBoot),
        (Phase::AnnouncingBoot, EventView::Signalled) => s.at(Phase::StartingClock),
        (Phase::StartingClock, EventView::ClockStarted(started)) => if started {
            s.at(Phase::AwaitingClock)
        } else {
            s.at(Phase::CheckingLink)
        },
        (Phase::AwaitingClock, EventView::ClockCompleted(completed)) => if completed {
            s.at(Phase::CheckingLink)
        } else {
            s.at(Phase::ClockBackoff)
        },
        (Phase::ClockBackoff, EventView::Elapsed) => s.at(Phase::AwaitingClock),
        (Phase::CheckingLink, EventView::Link(connected)) => match link_status(connected, None) {
            LinkStatus::Connected => s.at(Phase::SendingHeartbeat),
            _ => s.at(Phase::Reconnecting),
        },
        (Phase::Reconnecting, EventView::Connection(connected)) => match link_status(
            false,
            Some(connected),
        ) {
            LinkStatus::Connected => s.at(Phase::SendingHeartbeat),
            _ => s.at(Phase::AnnouncingReconnectFailure),
        },
        (Phase::AnnouncingReconnectFailure, EventView::Signalled) => s.at(Phase::AnnouncingOffline),
        (Phase::AnnouncingOffline, EventView::Signalled) => s.at(Phase::OfflineBackoff),
        (Phase::OfflineBackoff, EventView::Elapsed) => s.at(Phase::CheckingLink),
        (Phase::SendingHeartbeat, EventView::Exchanged(exchange)) => match delivery(exchange) {
            Ok(_) => s.at(Phase::ReadingLux),
            Err(_) => s.at(Phase::AnnouncingHeartbeatFailure),
        },
        (Phase::AnnouncingHeartbeatFailure, EventView::Signalled) => s.at(Phase::ReadingLux),
        (Phase::ReadingLux, EventView::Lux(lux)) => match sampling(CLIMATE_READ_ATTEMPTS, None) {
            SamplingView::Read => LifecycleView {
                lux,
                climate_reads_left: (CLIMATE_READ_ATTEMPTS - 1) as u32,
                phase: Phase::ReadingClimate,
                ..s
            },
            SamplingView::Done(reading) => LifecycleView { lux, ..s }.sampled(reading),
        },
        (Phase::ReadingClimate, EventView::Climate(reading)) => match sampling(
            s.climate_reads_left,
            Some(reading),
        ) {
            SamplingView::Read => LifecycleView {
                climate_reads_left: (s.climate_reads_left - 1) as u32,
                ..s
            },
            SamplingView::Done(reading) => s.sampled(reading),
        },
        (Phase::Submitting, EventView::Exchanged(exchange)) => match delivery(exchange) {
            Ok(_) => s.at(Phase::AnnouncingSubmitted),
            Err(_) => s.at(Phase::AnnouncingSubmitFailure),
        },
        (Phase::AnnouncingSubmitted, EventView::Signalled) => s.at(Phase::Sleeping),
        (Phase::AnnouncingSubmitFailure, EventView::Signalled) => s.at(Phase::Sleeping),
        (Phase::Sleeping, EventView::Elapsed) => s.at(Phase::CheckingLink),
        _ => s,
    }
}

/// The state reached from `s` after the events of `events`, in their order.
#[verifier::opaque]
pub open spec fn run(s: LifecycleView, events: Seq<EventView>) -> LifecycleView
    decreases events.len(),
{
    if events.len() == 0 {
        s
    } else {
        step(run(s, events.drop_last()), events.last())
    }
}

impl Lifecycle {
    /// The lifecycle of a deployment at power-on.
    pub fn new(settings: Settings) -> (state: Lifecycle)
        ensures
            state@ == initial(settings@),
    {
        let configuration = fallback_configuration(&settings);
        Lifecycle {
            settings,
            phase: Phase::Booting,
            mac_address: String::new(),
            configuration,
            body: String::new(),
            lux: 0,
            climate_reads_left: 0,
            temperature: None,
            humidity: None,
        }
    }

    pub fn phase(&self) -> (phase: Phase)
        ensures
            phase == self@.phase,
    {
        self.phase
    }

    pub fn stage(&self) -> (stage: Stage)
        ensures
            stage == stage_of(self@.phase),
    {
        match self.phase {
            Phase::Booting => Stage::Booting,
            Phase::ConnectingWifi | Phase::ConnectBackoff => Stage::ConnectingWifi,
            Phase::ResolvingIdentity | Phase::Registering => Stage::ResolvingIdentity,
            Phase::ResolvingConfig
            | Phase::DecodingConfig
            | Phase::AnnouncingFallback
            | Phase::AnnouncingBoot => Stage::ResolvingConfig,
            Phase::StartingClock | Phase::AwaitingClock | Phase::ClockBackoff => {
                Stage::SyncingClock
            },
            Phase::Halted => Stage::Halted,
            _ => Stage::Reporting,
        }
    }

    pub fn settings(&self) -> (settings: &Settings)
        ensures
            settings@ == self@.settings,
    {
        &self.settings
    }

    pub fn mac_address(&self) -> (mac_address: &str)
        ensures
            mac_address@ == self@.mac_address,
    {
        self.mac_address.as_str()
    }

    pub fn configuration(&self) -> (configuration: &Configuration)
        ensures
            configuration@ == self@.configuration,
    {
        &self.configuration
    }

    pub fn lux(&self) -> (lux: u32)
        ensures
            lux == self@.lux,
    {
        self.lux
    }

    pub fn temperature(&self) -> (temperature: Option<Measurement>)
        ensures
            temperature == self@.temperature,
    {
        self.temperature
    }

    pub fn humidity(&self) -> (humidity: Option<Measurement>)
        ensures
            humidity == self@.humidity,
    {
        self.humidity
    }

    fn configuration_request(&self) -> (request: PostRequest)
        ensures
            request@ == self@.configuration_request(),
    {
        get_configuration(self.settings.configuration_url.as_str(), self.mac_address.as_str())
    }

    fn registration_request(&self) -> (request: PostRequest)
        ensures
            request@ == self@.registration_request(),
    {
        match &self.settings.registration {
            Some(registration) => register_device(
                registration.url.as_str(),
                self.mac_address.as_str(),
                registration.device_type.as_str(),
                registration.name.as_str(),
                registration.description.as_str(),
            ),
            None => self.configuration_request(),
        }
    }

    fn client_service(&self) -> (service: ClientService)
        ensures
            service@.alert_url == self@.configuration.alert_endpoint,
            service@.i_am_alive_url == self@.configuration.i_am_alive_endpoint,
    {
        ClientService::new(
            self.configuration.alert_endpoint.as_str(),
            self.configuration.i_am_alive_endpoint.as_str(),
        )
    }

    fn peripheral_service(&self) -> (service: PeripheralService)
        ensures
            service@.wifi_ssid == self@.settings.wifi_ssid,
            service@.wifi_password == self@.settings.wifi_pass,
    {
        PeripheralService::new(self.settings.wifi_ssid.as_str(), self.settings.wifi_pass.as_str())
    }

    /// The action this state waits for.
    pub fn action(&self) -> (action: Action)
        ensures
            action@ == pending(self@),
    {
        let board = self.peripheral_service();
        match self.phase {
            Phase::Booting => Action::AcquireHardware,
            Phase::ConnectingWifi | Phase::Reconnecting => Action::Connect(board.station()),
            Phase::ConnectBackoff => Action::Sleep { millis: TIME_LONG },
            Phase::ResolvingIdentity => Action::ReadIdentity,
            Phase::Registering => Action::Post(self.registration_request()),
            Phase::ResolvingConfig => Action::Post(self.configuration_request()),
            Phase::DecodingConfig => Action::Decode { body: self.body.clone() },
            Phase::AnnouncingFallback => Action::Signal(board.led_blink_3_time_short()),
            Phase::AnnouncingBoot => Action::Signal(board.led_blink_1_time_long()),
            Phase::StartingClock => Action::StartClock,
            Phase::AwaitingClock => Action::PollClock,
            Phase::ClockBackoff => Action::Sleep { millis: thread_util::TIME_SHORT },
            Phase::CheckingLink => Action::CheckLink,
            Phase::AnnouncingReconnectFailure | Phase::AnnouncingOffline => Action::Signal(
                board.led_blink_3_time_long(),
            ),
            Phase::OfflineBackoff => Action::Sleep { millis: thread_util::TIME_SHORT },
            Phase::SendingHeartbeat => Action::Post(
                self.client_service().send_i_am_alive(self.mac_address.as_str()),
            ),
            Phase::AnnouncingHeartbeatFailure => Action::Signal(board.led_blink_2_time_short()),
            Phase::ReadingLux => Action::ReadLux,
            Phase::ReadingClimate => Action::ReadClimate,
            Phase::Submitting => Action::Post(
                self.client_service().send_alert(
                    self.mac_address.as_str(),
                    self.temperature,
                    self.humidity,
                    None,
                    Some(self.lux),
                    Some(self.lux > LIGHT_THRESHOLD_LUX),
                ),
            ),
            Phase::AnnouncingSubmitted => Action::Signal(board.led_blink_1_time_short()),
            Phase::AnnouncingSubmitFailure => Action::Signal(board.led_blink_2_time_long()),
            Phase::Sleeping => Action::Sleep {
                millis: interval_millis(self.configuration.weather_sensor_supply_interval_seconds),
            },
            Phase::Halted => Action::Halt,
        }
    }

    fn at(self, phase: Phase) -> (next: Lifecycle)
        ensures
            next@ == self@.at(phase),
    {
        let mut next = self;
        next.phase = phase;
        next
    }

    fn unresolved(self) -> (next: Lifecycle)
        ensures
            next@ == self@.unresolved(),
    {
        if self.settings.is_remote_configuration_mandatory {
            self.at(Phase::Halted)
        } else {
            let mut next = self;
            next.configuration = fallback_configuration(&next.settings);
            next.phase = Phase::AnnouncingFallback;
            next
        }
    }

    fn sampled(self, reading: ClimateReading) -> (next: Lifecycle)
        ensures
            next@ == self@.sampled(climate_view(reading)),
    {
        let mut next = self;
        match reading {
            Ok(values) => {
                next.temperature = Some(values.0);
                next.humidity = Some(values.1);
            },
            Err(_) => {
                next.temperature = None;
                next.humidity = None;
            },
        }
        next.phase = Phase::Submitting;
        next
    }

    fn advance(self, event: Event) -> (next: Lifecycle)
        ensures
            next@ == step(self@, event@),
    {
        let board = self.peripheral_service();
        match (self.phase, event) {
            (Phase::Booting, Event::HardwareReady) => self.at(Phase::ConnectingWifi),
            (Phase::ConnectingWifi, Event::Connection(connected)) => {
                if connected {
                    self.at(Phase::ResolvingIdentity)
                } else {
                    self.at(Phase::ConnectBackoff)
                }
            },
            (Phase::ConnectBackoff, Event::Elapsed) => self.at(Phase::ConnectingWifi),
            (Phase::ResolvingIdentity, Event::Identity(mac)) => {
                let mut next = self;
                next.mac_address = board.get_mac_address(mac);
                next.phase = if next.settings.registration.is_some() {
                    Phase::Registering
                } else {
                    Phase::ResolvingConfig
                };
                next
            },
            (Phase::Registering, Event::Exchanged(_)) => self.at(Phase::ResolvingConfig),
            (Phase::ResolvingConfig, Event::Exchanged(exchange)) => {
                match configuration_response(exchange) {
                    Ok(body) => {
                        let mut next = self;
                        next.body = body;
                        next.phase = Phase::DecodingConfig;
                        next
                    },
                    Err(_) => self.unresolved(),
                }
            },
            (Phase::DecodingConfig, Event::Decoded(decoded)) => {
                match accept_configuration(decoded) {
                    Ok(configuration) => {
                        let mut next = self;
                        next.configuration = configuration;
                        next.phase = Phase::AnnouncingBoot;
                        next
                    },
                    Err(_) => self.unresolved(),
                }
            },
            (Phase::AnnouncingFallback, Event::Signalled) => self.at(Phase::AnnouncingBoot),
            (Phase::AnnouncingBoot, Event::Signalled) => self.at(Phase::StartingClock),
            (Phase::StartingClock, Event::ClockStarted(started)) => {
                if started {
                    self.at(Phase::AwaitingClock)
                } else {
                    self.at(Phase::CheckingLink)
                }
            },
            (Phase::AwaitingClock, Event::ClockCompleted(completed)) => {
                if completed {
                    self.at(Phase::CheckingLink)
                } else {
                    self.at(Phase::ClockBackoff)
                }
            },
            (Phase::ClockBackoff, Event::Elapsed) => self.at(Phase::AwaitingClock),
            (Phase::CheckingLink, Event::Link(connected)) => {
                match board.retry_wifi_connection_if_necessary_and_return_status(connected, None) {
                    LinkStatus::Connected => self.at(Phase::SendingHeartbeat),
                    _ => self.at(Phase::Reconnecting),
                }
            },
            (Phase::Reconnecting, Event::Connection(connected)) => {
                match board.retry_wifi_connection_if_necessary_and_return_status(
                    false,
                    Some(connected),
                ) {
                    LinkStatus::Connected => self.at(Phase::SendingHeartbeat),
                    _ => self.at(Phase::AnnouncingReconnectFailure),
                }
            },
            (Phase::AnnouncingReconnectFailure, Event::Signalled) => self.at(
                Phase::AnnouncingOffline,
            ),
            (Phase::AnnouncingOffline, Event::Signalled) => self.at(Phase::OfflineBackoff),
            (Phase::OfflineBackoff, Event::Elapsed) => self.at(Phase::CheckingLink),
            (Phase::SendingHeartbeat, Event::Exchanged(exchange)) => {
                match delivered(exchange) {
                    Ok(_) => self.at(Phase::ReadingLux),
                    Err(_) => self.at(Phase::AnnouncingHeartbeatFailure),
                }
            },
            (Phase::AnnouncingHeartbeatFailure, Event::Signalled) => self.at(Phase::ReadingLux),
            (Phase::ReadingLux, Event::Lux(lux)) => {
                let mut next = self;
                next.lux = lux;
                match board.get_temperature_and_humidity_insistently(CLIMATE_READ_ATTEMPTS, None) {
                    Sampling::Read => {
                        next.climate_reads_left = CLIMATE_READ_ATTEMPTS - 1;
                        next.phase = Phase::ReadingClimate;
                        next
                    },
                    Sampling::Done(reading) => next.sampled(reading),
                }
            },
            (Phase::ReadingClimate, Event::Climate(reading)) => {
                match board.get_temperature_and_humidity_insistently(
                    self.climate_reads_left,
                    Some(reading),
                ) {
                    Sampling::Read => {
                        let mut next = self;
                        next.climate_reads_left = next.climate_reads_left - 1;
                        next
                    },
                    Sampling::Done(reading) => self.sampled(reading),
                }
            },
            (Phase::Submitting, Event::Exchanged(exchange)) => {
                match delivered(exchange) {
                    Ok(_) => self.at(Phase::AnnouncingSubmitted),
                    Err(_) => self.at(Phase::AnnouncingSubmitFailure),
                }
            },
            (Phase::AnnouncingSubmitted, Event::Signalled) => self.at(Phase::Sleeping),
            (Phase::AnnouncingSubmitFailure, Event::Signalled) => self.at(Phase::Sleeping),
            (Phase::Sleeping, Event::Elapsed) => self.at(Phase::CheckingLink),
            _ => self,
        }
    }
}

/// One turn of the lifecycle: the state after `event`, and the action to
/// perform next.
pub fn orchestrate(state: Lifecycle, event: Event) -> (turn: (Lifecycle, Action))
    ensures
        turn.0@ == step(state@, event@),
        turn.1@ == pending(turn.0@),
{
    let next = state.advance(event);
    let action = next.action();
    (next, action)
}

} // verus!
