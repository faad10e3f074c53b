//! The board as the lifecycle sees it: network credentials, the hardware
//! address, the indicator patterns and the retry policy around the climate
//! sensor. The hardware itself is driven elsewhere; here stands what is
//! decided about it.

use crate::dto::request_submit::Measurement;
use vstd::prelude::*;

verus! {

/// Length of a short pulse of the indicator, in milliseconds.
pub const TIME_SHORT: u64 = 20;

/// Length of a long pulse of the indicator, and of the pause between two
/// attempts to join the network at boot, in milliseconds.
pub const TIME_LONG: u64 = 1000;

/// A signal of the indicator: `pulses` times on for `millis`, then off for
/// `millis`.
#[derive(Debug, Clone, Copy, PartialEq, Eq, Structural)]
pub struct BlinkPattern {
    pub pulses: u8,
    pub millis: u64,
}

/// How a station proves itself to the access point.
#[derive(Debug, Clone, Copy, PartialEq, Eq, Structural)]
pub enum AuthMethod {
    Open,
    WEP,
    WPA,
    WPA2Personal,
    WPAWPA2Personal,
    WPA2Enterprise,
    WPA3Personal,
    WPA2WPA3Personal,
    WAPIPersonal,
}

/// The station settings handed to the network driver.
#[derive(Debug, Clone, PartialEq, Eq)]
pub struct WifiClientConfiguration {
    pub ssid: String,
    pub bssid: Option<[u8; 6]>,
    pub auth_method: AuthMethod,
    pub password: String,
    pub channel: Option<u8>,
}

pub struct WifiClientConfigurationView {
    pub ssid: Seq<char>,
    pub bssid: Option<Seq<u8>>,
    pub auth_method: AuthMethod,
    pub password: Seq<char>,
    pub channel: Option<u8>,
}

impl View for WifiClientConfiguration {
    type V = WifiClientConfigurationView;

    open spec fn view(&self) -> WifiClientConfigurationView {
        WifiClientConfigurationView {
            ssid: self.ssid@,
            bssid: match self.bssid {
                Some(bssid) => Some(bssid@),
                None => None,
            },
            auth_method: self.auth_method,
            password: self.password@,
            channel: self.channel,
        }
    }
}

/// The settings with which the node joins `ssid`: WPA2-Personal with the
/// given passphrase, any access point of that name, any channel.
pub open spec fn station_settings(
    ssid: Seq<char>,
    password: Seq<char>,
) -> WifiClientConfigurationView {
    WifiClientConfigurationView {
        ssid,
        bssid: None,
        auth_method: AuthMethod::WPA2Personal,
        password,
        channel: None,
    }
}

/// Builds the station settings for one attempt to join the network.
pub fn connect_wifi(ssid: &str, password: &str) -> (configuration: WifiClientConfiguration)
    ensures
        configuration@ == station_settings(ssid@, password@),
{
    WifiClientConfiguration {
        ssid: ssid.to_owned(),
        bssid: None,
        auth_method: AuthMethod::WPA2Personal,
        password: password.to_owned(),
        channel: None,
    }
}

/// Why a sensor gave no value.
#[derive(Debug, Clone, PartialEq, Eq)]
pub struct SensorError {
    pub message: String,
}

impl View for SensorError {
    type V = Seq<char>;

    open spec fn view(&self) -> Seq<char> {
        self.message@
    }
}

/// A temperature and a humidity, or the reason there is none.
pub type ClimateReading = Result<(Measurement, Measurement), SensorError>;

pub type ClimateReadingView = Result<(Measurement, Measurement), Seq<char>>;

pub open spec fn climate_view(reading: ClimateReading) -> ClimateReadingView {
    match reading {
        Ok(values) => Ok(values),
        Err(e) => Err(e@),
    }
}

/// What the supervisor of the network link concludes from what it has seen.
#[derive(Debug, Clone, Copy, PartialEq, Eq, Structural)]
pub enum LinkStatus {
    /// The node is associated: the status is `true`.
    Connected,
    /// The node is not associated and has not yet tried to join again: one
    /// attempt is due.
    Reconnect,
    /// The one attempt failed: show `signal`, the status is `false`.
    Disconnected { signal: BlinkPattern },
}

/// The supervisor's rule: an associated node is connected; one that is not
/// makes exactly one attempt, and is connected if that succeeds.
pub open spec fn link_status(connected: bool, attempt: Option<bool>) -> LinkStatus {
    if connected {
        LinkStatus::Connected
    } else {
        match attempt {
            None => LinkStatus::Reconnect,
            Some(true) => LinkStatus::Connected,
            Some(false) => LinkStatus::Disconnected {
                signal: BlinkPattern { pulses: 3, millis: TIME_LONG },
            },
        }
    }
}

/// What to do about the climate sensor.
#[derive(Debug, PartialEq, Eq)]
pub enum Sampling {
    /// Read the sensor (again).
    Read,
    /// The reading of this cycle is settled.
    Done(ClimateReading),
}

pub enum SamplingView {
    Read,
    Done(ClimateReadingView),
}

impl View for Sampling {
    type V = SamplingView;

    open spec fn view(&self) -> SamplingView {
        match self {
            Sampling::Read => SamplingView::Read,
            Sampling::Done(reading) => SamplingView::Done(climate_view(*reading)),
        }
    }
}

/// What is reported when not a single read was allowed.
pub open spec fn no_read_message() -> Seq<char> {
    "no sensor read was attempted"@
}

/// The bounded retry. `remaining` is the number of reads that may still be
/// made; `last` is `None` before the first read and what the latest read gave
/// after it. A success settles the reading. A failure is retried while a read
/// remains, and settles the reading as that failure when none does. Where not
/// even a first read is allowed, the reading is settled as a failure of its
/// own.
pub open spec fn sampling(remaining: u32, last: Option<ClimateReadingView>) -> SamplingView {
    match last {
        Some(Ok(values)) => SamplingView::Done(Ok(values)),
        Some(Err(e)) => if remaining > 0 {
            SamplingView::Read
        } else {
            SamplingView::Done(Err(e))
        },
        None => if remaining > 0 {
            SamplingView::Read
        } else {
            SamplingView::Done(Err(no_read_message()))
        },
    }
}

pub open spec fn optional_climate_view(reading: Option<ClimateReading>) -> Option<
    ClimateReadingView,
> {
    match reading {
        Some(reading) => Some(climate_view(reading)),
        None => None,
    }
}

/// What the bounded retry settles on when the reads that it makes give
/// `readings`, in their order; `None` where it would make a read that
/// `readings` does not hold. `remaining` and `last` are as in `sampling`.
pub open spec fn insistent_reading(
    remaining: u32,
    last: Option<ClimateReadingView>,
    readings: Seq<ClimateReadingView>,
) -> Option<ClimateReadingView>
    decreases readings.len(),
{
    match sampling(remaining, last) {
        SamplingView::Done(reading) => Some(reading),
        SamplingView::Read => if readings.len() == 0 {
            None
        } else {
            insistent_reading((remaining - 1) as u32, Some(readings[0]), readings.drop_first())
        },
    }
}

/// The readings of a sensor that fails once for each message.
pub open spec fn failures(messages: Seq<Seq<char>>) -> Seq<ClimateReadingView> {
    Seq::new(messages.len(), |i: int| Err(messages[i]))
}

proof fn lemma_success_after_failures(
    remaining: u32,
    last: Option<ClimateReadingView>,
    messages: Seq<Seq<char>>,
    values: (Measurement, Measurement),
    rest: Seq<ClimateReadingView>,
)
    requires
        messages.len() < remaining,
        !(last matches Some(Ok(_))),
    ensures
        insistent_reading(remaining, last, failures(messages) + seq![Ok(values)] + rest) == Some(
            Ok::<(Measurement, Measurement), Seq<char>>(values),
        ),
    decreases messages.len(),
{
    let readings = failures(messages) + seq![Ok(values)] + rest;
    if messages.len() == 0 {
        assert(readings[0] == Ok::<(Measurement, Measurement), Seq<char>>(values));
        assert(sampling((remaining - 1) as u32, Some(readings[0])) == SamplingView::Done(
            Ok(values),
        ));
    } else {
        assert(readings[0] == Err::<(Measurement, Measurement), Seq<char>>(messages[0]));
        assert(readings.drop_first() =~= failures(messages.drop_first()) + seq![Ok(values)]
            + rest);
        lemma_success_after_failures(
            (remaining - 1) as u32,
            Some(readings[0]),
            messages.drop_first(),
            values,
            rest,
        );
    }
}

proof fn lemma_failure_after_failures(
    remaining: u32,
    last: Option<ClimateReadingView>,
    messages: Seq<Seq<char>>,
    rest: Seq<ClimateReadingView>,
)
    requires
        messages.len() == remaining,
        !(last matches Some(Ok(_))),
    ensures
        insistent_reading(remaining, last, failures(messages) + rest) == Some(
            Err::<(Measurement, Measurement), Seq<char>>(
                if messages.len() > 0 {
                    messages.last()
                } else {
                    match last {
                        Some(Err(e)) => e,
                        _ => no_read_message(),
                    }
                },
            ),
        ),
    decreases messages.len(),
{
    let readings = failures(messages) + rest;
    if messages.len() > 0 {
        assert(readings[0] == Err::<(Measurement, Measurement), Seq<char>>(messages[0]));
        assert(readings.drop_first() =~= failures(messages.drop_first()) + rest);
        lemma_failure_after_failures(
            (remaining - 1) as u32,
            Some(readings[0]),
            messages.drop_first(),
            rest,
        );
        if messages.len() > 1 {
            assert(messages.drop_first().last() == messages.last());
        }
    }
}

/// A sensor that fails fewer times in a row than reads are allowed, and then
/// succeeds, gives its values: the first success is what the retry returns,
/// whatever the sensor would have given after it.
pub proof fn law_first_success_is_returned(
    max_attempts: u32,
    messages: Seq<Seq<char>>,
    values: (Measurement, Measurement),
    rest: Seq<ClimateReadingView>,
)
    requires
        messages.len() < max_attempts,
    ensures
        insistent_reading(max_attempts, None, failures(messages) + seq![Ok(values)] + rest)
            == Some(Ok::<(Measurement, Measurement), Seq<char>>(values)),
{
    lemma_success_after_failures(max_attempts, None, messages, values, rest);
}

/// A sensor that fails as many times in a row as reads are allowed gives no
/// values: the retry returns the last of these failures and makes no further
/// read, whatever the sensor would have given then. Where no read is allowed
/// at all, none is made, and the failure is one of its own.
pub proof fn law_last_failure_is_returned(
    max_attempts: u32,
    messages: Seq<Seq<char>>,
    rest: Seq<ClimateReadingView>,
)
    requires
        messages.len() == max_attempts,
    ensures
        insistent_reading(max_attempts, None, failures(messages) + rest) == Some(
            Err::<(Measurement, Measurement), Seq<char>>(
                if max_attempts == 0 {
                    no_read_message()
                } else {
                    messages.last()
                },
            ),
        ),
{
    lemma_failure_after_failures(max_attempts, None, messages, rest);
}

/// The two upper-case hexadecimal digits of a byte.
pub open spec fn hex_pair(byte: u8) -> Seq<char> {
    let digits = seq![
        '0', '1', '2', '3', '4', '5', '6', '7', '8', '9', 'A', 'B', 'C', 'D', 'E', 'F',
    ];
    seq![digits[byte as int / 16], digits[byte as int % 16]]
}

/// A hardware address in text: its six bytes as hexadecimal pairs, joined by
/// colons, as in `AB:0D:EF:12:34:56`.
pub open spec fn mac_address_text(mac: Seq<u8>) -> Seq<char>
    recommends
        mac.len() == 6,
{
    hex_pair(mac[0]) + seq![':'] + hex_pair(mac[1]) + seq![':'] + hex_pair(mac[2]) + seq![':']
        + hex_pair(mac[3]) + seq![':'] + hex_pair(mac[4]) + seq![':'] + hex_pair(mac[5])
}

/// Calls `macaddr::MacAddr6::new` on the six bytes and renders the address
/// with `to_string`. Trusted: the text is the one `mac_address_text` gives,
/// which is the crate's plain `Display` form (`{:02X}` of each byte, colons
/// between them).
#[verifier::external_body]
fn mac_addr6_to_string(mac: &[u8; 6]) -> (text: String)
    ensures
        text@ == mac_address_text(mac@),
{
    macaddr::MacAddr6::new(mac[0], mac[1], mac[2], mac[3], mac[4], mac[5]).to_string()
}

/// The part of the board that is plain data: the credentials of the network
/// it joins.
#[derive(Debug, Clone, PartialEq, Eq)]
pub struct PeripheralService {
    wifi_ssid: String,
    wifi_password: String,
}

pub struct PeripheralServiceView {
    pub wifi_ssid: Seq<char>,
    pub wifi_password: Seq<char>,
}

impl View for PeripheralService {
    type V = PeripheralServiceView;

    closed spec fn view(&self) -> PeripheralServiceView {
        PeripheralServiceView { wifi_ssid: self.wifi_ssid@, wifi_password: self.wifi_password@ }
    }
}

impl PeripheralService {
    pub fn new(wifi_ssid: &str, wifi_password: &str) -> (service: PeripheralService)
        ensures
            service@ == (PeripheralServiceView {
                wifi_ssid: wifi_ssid@,
                wifi_password: wifi_password@,
            }),
    {
        PeripheralService {
            wifi_ssid: wifi_ssid.to_owned(),
            wifi_password: wifi_password.to_owned(),
        }
    }

    /// The station settings for joining this board's network.
    pub fn station(&self) -> (configuration: WifiClientConfiguration)
        ensures
            configuration@ == station_settings(self@.wifi_ssid, self@.wifi_password),
    {
        connect_wifi(self.wifi_ssid.as_str(), self.wifi_password.as_str())
    }

    /// The health check of the link. `connected` is whether the node is
    /// associated; `attempt` is `None` before an attempt to join again, and
    /// its outcome after it.
    pub fn retry_wifi_connection_if_necessary_and_return_status(
        &self,
        connected: bool,
        attempt: Option<bool>,
    ) -> (status: LinkStatus)
        ensures
            status == link_status(connected, attempt),
    {
        if connected {
            LinkStatus::Connected
        } else {
            match attempt {
                None => LinkStatus::Reconnect,
                Some(true) => LinkStatus::Connected,
                Some(false) => LinkStatus::Disconnected { signal: self.led_blink_3_time_long() },
            }
        }
    }

    /// The retry policy around the temperature and humidity sensor: what to
    /// do when `remaining` reads may still be made and the latest read, if
    /// there was one, gave `last`.
    pub fn get_temperature_and_humidity_insistently(
        &self,
        remaining: u32,
        last: Option<ClimateReading>,
    ) -> (next: Sampling)
        ensures
            next@ == sampling(remaining, optional_climate_view(last)),
    {
        match last {
            Some(Ok(values)) => Sampling::Done(Ok(values)),
            Some(Err(e)) => {
                if remaining > 0 {
                    Sampling::Read
                } else {
                    Sampling::Done(Err(e))
                }
            },
            None => {
                if remaining > 0 {
                    Sampling::Read
                } else {
                    Sampling::Done(
                        Err(SensorError { message: "no sensor read was attempted".to_owned() }),
                    )
                }
            },
        }
    }

    /// Three short pulses: the node runs on its built-in configuration.
    pub fn led_blink_3_time_short(&self) -> (pattern: BlinkPattern)
        ensures
            pattern == (BlinkPattern { pulses: 3, millis: TIME_SHORT }),
    {
        BlinkPattern { pulses: 3, millis: TIME_SHORT }
    }

    /// Three long pulses: the node is off the network and tries again.
    pub fn led_blink_3_time_long(&self) -> (pattern: BlinkPattern)
        ensures
            pattern == (BlinkPattern { pulses: 3, millis: TIME_LONG }),
    {
        BlinkPattern { pulses: 3, millis: TIME_LONG }
    }

    /// Two short pulses: the heartbeat did not go out.
    pub fn led_blink_2_time_short(&self) -> (pattern: BlinkPattern)
        ensures
            pattern == (BlinkPattern { pulses: 2, millis: TIME_SHORT }),
    {
        BlinkPattern { pulses: 2, millis: TIME_SHORT }
    }

    /// Two long pulses: the readings did not go out.
    pub fn led_blink_2_time_long(&self) -> (pattern: BlinkPattern)
        ensures
            pattern == (BlinkPattern { pulses: 2, millis: TIME_LONG }),
    {
        BlinkPattern { pulses: 2, millis: TIME_LONG }
    }

    /// One short pulse: the readings went out.
    pub fn led_blink_1_time_short(&self) -> (pattern: BlinkPattern)
        ensures
            pattern == (BlinkPattern { pulses: 1, millis: TIME_SHORT }),
    {
        BlinkPattern { pulses: 1, millis: TIME_SHORT }
    }

    /// One long pulse: the boot is complete.
    pub fn led_blink_1_time_long(&self) -> (pattern: BlinkPattern)
        ensures
            pattern == (BlinkPattern { pulses: 1, millis: TIME_LONG }),
    {
        BlinkPattern { pulses: 1, millis: TIME_LONG }
    }

    /// The identity of the device: the hardware address of its station
    /// interface, in text.
    pub fn get_mac_address(&self, mac: [u8; 6]) -> (mac_address: String)
        ensures
            mac_address@ == mac_address_text(mac@),
    {
        mac_addr6_to_string(&mac)
    }
}

} // verus!
