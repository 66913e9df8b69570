//! Settings of the serial link to the device.

use std::time::Duration;
use vstd::prelude::*;

verus! {

/// Default baud rate of the devices.
pub const DEFAULT_BAUD_RATE: u32 = 115_200;

/// Default wait after opening the port, in milliseconds.
pub const DEFAULT_CONNECTION_DELAY_MS: u64 = 300;

/// Relies on `Duration::from_millis`: a duration of `ms` milliseconds.
#[verifier::external_body]
fn millis(ms: u64) -> (r: Duration) {
    Duration::from_millis(ms)
}

/// `Duration` is `Copy`: its clone is the same duration.
pub assume_specification[ <Duration as Clone>::clone ](d: &Duration) -> (r: Duration)
    ensures
        r == *d,
;

/// Configuration of a serial link.
#[derive(Debug, Clone)]
pub struct SerialConfig {
    /// Port path, such as `/dev/ttyUSB0` or `COM3`.
    pub port: String,
    /// Baud rate.
    pub baud_rate: u32,
    /// Wait after opening the port before sending commands.
    pub connection_delay: Duration,
}

impl SerialConfig {
    /// A configuration for `port` with the default baud rate and delay.
    pub fn new(port: &str) -> (r: Self)
        ensures
            r.port@ == port@,
            r.baud_rate == DEFAULT_BAUD_RATE,
    {
        SerialConfig {
            port: port.to_owned(),
            baud_rate: DEFAULT_BAUD_RATE,
            connection_delay: millis(DEFAULT_CONNECTION_DELAY_MS),
        }
    }

    /// The same configuration with baud rate `rate`.
    pub fn baud_rate(self, rate: u32) -> (r: Self)
        ensures
            r.port == self.port,
            r.baud_rate == rate,
            r.connection_delay == self.connection_delay,
    {
        SerialConfig { baud_rate: rate, ..self }
    }

    /// The same configuration with connection delay `delay`.
    pub fn connection_delay(self, delay: Duration) -> (r: Self)
        ensures
            r.port == self.port,
            r.baud_rate == self.baud_rate,
            r.connection_delay == delay,
    {
        SerialConfig { connection_delay: delay, ..self }
    }
}

} // verus!
