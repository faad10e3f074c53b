//! Registration of a device at boot.

use vstd::prelude::*;

verus! {

/// Announces a device to the server. On the wire:
/// `{ "macAddress": string, "type": string, "name": string, "description": string }`.
#[derive(Debug, Clone, PartialEq, Eq)]
pub struct RegisterDeviceDTO {
    mac_address: String,
    device_type: String,
    name: String,
    description: String,
}

pub struct RegisterDeviceView {
    pub mac_address: Seq<char>,
    pub device_type: Seq<char>,
    pub name: Seq<char>,
    pub description: Seq<char>,
}

impl View for RegisterDeviceDTO {
    type V = RegisterDeviceView;

    closed spec fn view(&self) -> RegisterDeviceView {
        RegisterDeviceView {
            mac_address: self.mac_address@,
            device_type: self.device_type@,
            name: self.name@,
            description: self.description@,
        }
    }
}

impl RegisterDeviceDTO {
    pub fn new(
        mac_address: String,
        device_type: String,
        name: String,
        description: String,
    ) -> (request: RegisterDeviceDTO)
        ensures
            request@ == (RegisterDeviceView {
                mac_address: mac_address@,
                device_type: device_type@,
                name: name@,
                description: description@,
            }),
    {
        RegisterDeviceDTO { mac_address, device_type, name, description }
    }

    pub fn mac_address(&self) -> (mac_address: &str)
        ensures
            mac_address@ == self@.mac_address,
    {
        self.mac_address.as_str()
    }

    pub fn device_type(&self) -> (device_type: &str)
        ensures
            device_type@ == self@.device_type,
    {
        self.device_type.as_str()
    }

    pub fn name(&self) -> (name: &str)
        ensures
            name@ == self@.name,
    {
        self.name.as_str()
    }

    pub fn description(&self) -> (description: &str)
        ensures
            description@ == self@.description,
    {
        self.description.as_str()
    }
}

} // verus!
