use vstd::prelude::*;
use crate::shared::DEFAULT_INTERVAL_MS;

verus! {

/// Startup settings as read from the configuration file.
#[derive(Clone, Debug)]
pub struct Settings {
    /// Wanted capture device names, or `"default"`.
    pub devices: Option<Vec<String>>,
    pub tcp: Option<bool>,
    pub tcp_port: Option<String>,
    pub udp: Option<bool>,
    pub udp_address: Option<String>,
    pub udp_port: Option<String>,
    /// Commit interval in ms.
    pub color_change_interval: Option<u64>,
}

impl Settings {
    /// The configured commit interval, or the default one.
    pub fn interval_ms(&self) -> (r: u64)
        ensures
            r == match self.color_change_interval {
                Some(v) => v,
                None => DEFAULT_INTERVAL_MS,
            },
    {
        match self.color_change_interval {
            Some(v) => v,
            None => DEFAULT_INTERVAL_MS,
        }
    }

    /// Whether the UDP pusher is enabled (it is unless switched off).
    pub fn udp_enabled(&self) -> (r: bool)
        ensures
            r == match self.udp {
                Some(v) => v,
                None => true,
            },
    {
        match self.udp {
            Some(v) => v,
            None => true,
        }
    }

    /// Whether the TCP responder is enabled (it is only if switched on).
    pub fn tcp_enabled(&self) -> (r: bool)
        ensures
            r == match self.tcp {
                Some(v) => v,
                None => false,
            },
    {
        match self.tcp {
            Some(v) => v,
            None => false,
        }
    }
}

} // verus!
