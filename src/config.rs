use vstd::prelude::*;
use vstd::string::StringExecFns;

use crate::endpoint::{Endpoint, Host};

verus! {

/// Settings supplied once at startup and only read afterwards.
#[derive(Clone, Debug)]
pub struct Config {
    pub wifi_ssid: String,
    pub wifi_psk: String,
    pub area: String,
    pub flow_name: String,
    pub target_ip: String,
    pub target_port: u16,
    pub outbound_port: u16,
    pub inbound_port: u16,
}

impl Config {
    /// The settings used when none are supplied.
    pub fn defaults() -> (r: Config)
        ensures
            r.wifi_ssid@ == ""@,
            r.wifi_psk@ == ""@,
            r.area@ == "base"@,
            r.flow_name@ == "Flow Area 0.1"@,
            r.target_ip@ == "192.168.0.104"@,
            r.target_port == 33001,
            r.outbound_port == 29000,
            r.inbound_port == 29001,
    {
        Config {
            wifi_ssid: String::from_str(""),
            wifi_psk: String::from_str(""),
            area: String::from_str("base"),
            flow_name: String::from_str("Flow Area 0.1"),
            target_ip: String::from_str("192.168.0.104"),
            target_port: 33001,
            outbound_port: 29000,
            inbound_port: 29001,
        }
    }
}

/// Where telemetry goes until a retarget: 192.168.178.125, port 33001.
pub fn fallback_target() -> (r: Endpoint)
    ensures
        r.host == Host::V4(0xC0A8_B27Du32),
        r.port == 33001,
{
    Endpoint::new(0xC0A8_B27Du32, 33001)
}

} // verus!
