//! Descriptions of the local device.

use vstd::prelude::*;

use crate::contact::PublicKey;
use crate::scaled::Scaled;

verus! {

/// Telemetry mode settings, two bits each.
#[derive(Debug, Clone, Copy, Default, PartialEq, Eq, Structural)]
pub struct TelemetryMode {
    /// Environment telemetry mode (bits 4 and 5).
    pub env: u8,
    /// Location telemetry mode (bits 2 and 3).
    pub loc: u8,
    /// Base telemetry mode (bits 0 and 1).
    pub base: u8,
}

impl TelemetryMode {
    /// The modes packed in a byte.
    pub fn from_byte(byte: u8) -> (r: Self)
        ensures
            r.env == (byte >> 4u8) & 3u8,
            r.loc == (byte >> 2u8) & 3u8,
            r.base == byte & 3u8,
    {
        TelemetryMode { env: (byte >> 4u8) & 3u8, loc: (byte >> 2u8) & 3u8, base: byte & 3u8 }
    }

    /// The modes packed into a byte; only the low two bits of each count.
    pub fn to_byte(self) -> (r: u8)
        ensures
            r == ((self.env & 3u8) << 4u8) | ((self.loc & 3u8) << 2u8) | (self.base & 3u8),
    {
        ((self.env & 3u8) << 4u8) | ((self.loc & 3u8) << 2u8) | (self.base & 3u8)
    }
}

/// Radio parameters.
#[derive(Debug, Clone, Copy, PartialEq, Eq, Structural)]
pub struct RadioConfig {
    /// Frequency in MHz, sent in thousandths.
    pub frequency_mhz: Scaled,
    /// Bandwidth in kHz, sent in thousandths.
    pub bandwidth_khz: Scaled,
    /// Spreading factor.
    pub spreading_factor: u8,
    /// Coding rate denominator (5 to 8 for 4/5 to 4/8).
    pub coding_rate: u8,
}

impl Default for RadioConfig {
    fn default() -> (r: Self)
        ensures
            r.frequency_mhz == (Scaled { raw: 868_000, scale: 1000 }),
            r.bandwidth_khz == (Scaled { raw: 125_000, scale: 1000 }),
            r.spreading_factor == 7,
            r.coding_rate == 5,
    {
        RadioConfig {
            frequency_mhz: Scaled { raw: 868_000, scale: 1000 },
            bandwidth_khz: Scaled { raw: 125_000, scale: 1000 },
            spreading_factor: 7,
            coding_rate: 5,
        }
    }
}

/// Description of the local device, sent in answer to the start command.
#[derive(Debug, Clone)]
pub struct SelfInfo {
    /// Advertisement type.
    pub advert_type: u8,
    /// Current transmit power (dBm).
    pub tx_power: u8,
    /// Largest transmit power (dBm).
    pub max_tx_power: u8,
    /// The device's public key.
    pub public_key: PublicKey,
    /// Latitude in degrees, if set.
    pub latitude: Option<Scaled>,
    /// Longitude in degrees, if set.
    pub longitude: Option<Scaled>,
    /// Multi-ack setting.
    pub multi_acks: u8,
    /// Advertisement location policy.
    pub advert_loc_policy: u8,
    /// Telemetry modes.
    pub telemetry_mode: TelemetryMode,
    /// Whether new contacts need manual approval.
    pub manual_add_contacts: bool,
    /// Radio parameters.
    pub radio: RadioConfig,
    /// Device name.
    pub name: String,
}

impl SelfInfo {
    /// A copy holding the same values.
    pub fn duplicate(&self) -> (r: SelfInfo)
        ensures
            r == *self,
    {
        SelfInfo {
            advert_type: self.advert_type,
            tx_power: self.tx_power,
            max_tx_power: self.max_tx_power,
            public_key: self.public_key,
            latitude: self.latitude,
            longitude: self.longitude,
            multi_acks: self.multi_acks,
            advert_loc_policy: self.advert_loc_policy,
            telemetry_mode: self.telemetry_mode,
            manual_add_contacts: self.manual_add_contacts,
            radio: self.radio,
            name: self.name.clone(),
        }
    }
}

/// Device description sent in answer to a device query.
///
/// Firmware before version 3 reports only its version.
#[derive(Debug, Clone)]
pub struct DeviceInfo {
    /// Firmware version.
    pub firmware_version: u8,
    /// Largest number of contacts.
    pub max_contacts: Option<u16>,
    /// Largest number of channels.
    pub max_channels: Option<u8>,
    /// Bluetooth pairing PIN.
    pub ble_pin: Option<u32>,
    /// Build identifier.
    pub build: Option<String>,
    /// Device model.
    pub model: Option<String>,
    /// Version text.
    pub version: Option<String>,
}

/// Battery and storage status.
#[derive(Debug, Clone, Copy, PartialEq, Eq, Structural)]
pub struct BatteryStatus {
    /// Battery voltage in millivolts.
    pub millivolts: u16,
    /// Used storage in KB, if reported.
    pub used_kb: Option<u32>,
    /// Total storage in KB, if reported.
    pub total_kb: Option<u32>,
}

/// Configuration of a group channel.
#[derive(Debug, Clone)]
pub struct Channel {
    /// Channel index.
    pub index: u8,
    /// Channel name.
    pub name: String,
    /// Channel secret.
    pub secret: [u8; 16],
}

} // verus!
