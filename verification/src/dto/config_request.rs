//! Request for the operating configuration of one device.

use vstd::prelude::*;

verus! {

/// Asks the configuration server for the settings of the device with this
/// hardware address. On the wire: `{ "macAddress": string }`.
#[derive(Debug, Clone, PartialEq, Eq)]
pub struct ConfigRequest {
    mac_address: String,
}

pub struct ConfigRequestView {
    pub mac_address: Seq<char>,
}

impl View for ConfigRequest {
    type V = ConfigRequestView;

    closed spec fn view(&self) -> ConfigRequestView {
        ConfigRequestView { mac_address: self.mac_address@ }
    }
}

impl ConfigRequest {
    pub fn new(mac_address: String) -> (request: ConfigRequest)
        ensures
            request@ == (ConfigRequestView { mac_address: mac_address@ }),
    {
        ConfigRequest { mac_address }
    }

    pub fn mac_address(&self) -> (mac_address: &str)
        ensures
            mac_address@ == self@.mac_address,
    {
        self.mac_address.as_str()
    }
}

} // verus!
