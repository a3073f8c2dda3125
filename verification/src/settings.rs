//! How the serial and bus devices of the node are reached.

use std::time::Duration;
use vstd::prelude::*;

verus! {

/// The duration that `Duration::from_millis` makes of a number of
/// milliseconds.
pub uninterp spec fn duration_of_millis(millis: u64) -> Duration;

/// `Duration::from_millis` of std makes a duration of the given number of
/// milliseconds: equal numbers give equal durations.
pub assume_specification[ Duration::from_millis ](millis: u64) -> (d: Duration)
    ensures
        d == duration_of_millis(millis),
;

/// How a device on a serial line is reached.
#[derive(Debug, Clone, Copy)]
pub struct UartDeviceSettings {
    /// Path of the serial port.
    pub port: &'static str,
    pub baud_rate: u32,
    /// Longest wait for a read.
    pub timeout: Duration,
}

/// The settings of all devices that have any.
#[derive(Debug)]
pub struct Settings {
    pub gps: UartDeviceSettings,
    pub aht_bus: u8,
    pub wind: UartDeviceSettings,
    pub imu_bus: u8,
}

impl Settings {
    /// The settings of the deployed node: both serial devices at 9600 baud
    /// with reads that wait a quarter of a second, both bus devices on
    /// bus 1.
    pub open spec fn is_deployment(self) -> bool {
        &&& self.gps.port@ == "/dev/ttyAMA0"@
        &&& self.gps.baud_rate == 9_600
        &&& self.gps.timeout == duration_of_millis(250)
        &&& self.aht_bus == 1
        &&& self.wind.port@ == "/dev/ttyAMA2"@
        &&& self.wind.baud_rate == 9_600
        &&& self.wind.timeout == duration_of_millis(250)
        &&& self.imu_bus == 1
    }
}

impl Default for Settings {
    fn default() -> (s: Self)
        ensures
            s.is_deployment(),
    {
        let gps = UartDeviceSettings {
            port: "/dev/ttyAMA0",
            baud_rate: 9_600,
            timeout: Duration::from_millis(250),
        };
        let aht_bus = 1u8;
        let wind = UartDeviceSettings {
            port: "/dev/ttyAMA2",
            baud_rate: 9_600,
            timeout: Duration::from_millis(250),
        };
        let imu_bus = 1u8;
        Settings { gps, aht_bus, wind, imu_bus }
    }
}

} // verus!
