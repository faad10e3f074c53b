//! The heartbeat.

use vstd::prelude::*;

verus! {

/// Tells the server that the device with this hardware address is powered and
/// connected. On the wire: `{ "macAddress": string }`.
#[derive(Debug, Clone, PartialEq, Eq)]
pub struct RequestIAmAlive {
    mac_address: String,
}

pub struct RequestIAmAliveView {
    pub mac_address: Seq<char>,
}

impl View for RequestIAmAlive {
    type V = RequestIAmAliveView;

    closed spec fn view(&self) -> RequestIAmAliveView {
        RequestIAmAliveView { mac_address: self.mac_address@ }
    }
}

impl RequestIAmAlive {
    pub fn new(mac_address: String) -> (request: RequestIAmAlive)
        ensures
            request@ == (RequestIAmAliveView { mac_address: mac_address@ }),
    {
        RequestIAmAlive { mac_address }
    }

    pub fn mac_address(&self) -> (mac_address: &str)
        ensures
            mac_address@ == self@.mac_address,
    {
        self.mac_address.as_str()
    }
}

} // verus!
