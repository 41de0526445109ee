//! The service's configuration: the device, its sources, backends and sinks.
use vstd::prelude::*;
use crate::config::MetricConfiguration;
use crate::consumer::MetricConsumerConfiguration;
use crate::notifications::NotificationConfiguration;

verus! {

/// The whole configuration of the service.
#[derive(Debug)]
pub struct Config {
    pub device: DeviceConf,
    pub metrics: Vec<MetricConfiguration>,
    pub notifications: Vec<NotificationConfiguration>,
    pub consumers: Vec<MetricConsumerConfiguration>,
}

/// The identity of the monitored device.
#[derive(Debug)]
pub struct DeviceConf {
    pub name: String,
    pub ip: String,
}

impl DeviceConf {
    /// `Device : '<name>' [<ip>]`.
    pub fn describe(&self) -> (r: String)
        ensures
            r@ == "Device : '"@ + self.name@ + "' ["@ + self.ip@ + "]"@,
    {
        let mut text = String::from_str("Device : '");
        text.append(self.name.as_str());
        text.append("' [");
        text.append(self.ip.as_str());
        text.append("]");
        text
    }
}

} // verus!
