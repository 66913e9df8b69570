//! Device statistics.

use vstd::prelude::*;

use crate::scaled::Scaled;

verus! {

/// Statistics group of a statistics packet.
#[derive(Debug, Clone, Copy, PartialEq, Eq, Structural)]
pub enum StatsType {
    /// Core statistics.
    Core,
    /// Radio statistics.
    Radio,
    /// Packet counters.
    Packets,
}

/// The statistics group that a sub-type byte names.
pub open spec fn stats_type_of(byte: u8) -> Option<StatsType> {
    if byte == 0 {
        Some(StatsType::Core)
    } else if byte == 1 {
        Some(StatsType::Radio)
    } else if byte == 2 {
        Some(StatsType::Packets)
    } else {
        None
    }
}

impl StatsType {
    /// The statistics group that a sub-type byte names.
    pub fn from_byte(byte: u8) -> (r: Option<Self>)
        ensures
            r == stats_type_of(byte),
    {
        match byte {
            0 => Some(StatsType::Core),
            1 => Some(StatsType::Radio),
            2 => Some(StatsType::Packets),
            _ => None,
        }
    }
}

/// Core statistics.
#[derive(Debug, Clone, Copy, PartialEq, Eq, Structural)]
pub struct CoreStats {
    /// Battery voltage in millivolts.
    pub battery_mv: u16,
    /// Uptime in seconds.
    pub uptime_secs: u32,
    /// Error count.
    pub errors: u16,
    /// Transmit queue length.
    pub queue_len: u8,
}

/// Radio statistics.
#[derive(Debug, Clone, Copy, PartialEq, Eq, Structural)]
pub struct RadioStats {
    /// Noise floor in dBm.
    pub noise_floor: i16,
    /// Last RSSI in dBm.
    pub rssi: i8,
    /// Last SNR in dB, sent in quarters.
    pub snr: Scaled,
    /// Transmit airtime in seconds.
    pub tx_airtime_secs: u32,
    /// Receive airtime in seconds.
    pub rx_airtime_secs: u32,
}

/// Packet counters.
#[derive(Debug, Clone, Copy, PartialEq, Eq, Structural)]
pub struct PacketStats {
    /// Packets received.
    pub received: u32,
    /// Packets sent.
    pub sent: u32,
    /// Flood packets sent.
    pub flood_tx: u32,
    /// Direct packets sent.
    pub direct_tx: u32,
    /// Flood packets received.
    pub flood_rx: u32,
    /// Direct packets received.
    pub direct_rx: u32,
}

/// Full status of a device, local or remote.
#[derive(Debug, Clone, Copy, PartialEq, Eq)]
pub struct DeviceStatus {
    /// First six bytes of the device's public key.
    pub pubkey_prefix: [u8; 6],
    /// Battery voltage in millivolts.
    pub battery_mv: u16,
    /// Transmit queue length.
    pub tx_queue_len: u16,
    /// Noise floor in dBm.
    pub noise_floor: i16,
    /// Last RSSI in dBm.
    pub last_rssi: i16,
    /// Packets received.
    pub packets_received: u32,
    /// Packets sent.
    pub packets_sent: u32,
    /// Airtime in seconds.
    pub airtime_secs: u32,
    /// Uptime in seconds.
    pub uptime_secs: u32,
    /// Flood packets sent.
    pub sent_flood: u32,
    /// Direct packets sent.
    pub sent_direct: u32,
    /// Flood packets received.
    pub recv_flood: u32,
    /// Direct packets received.
    pub recv_direct: u32,
    /// Full-queue events.
    pub full_events: u16,
    /// Last SNR in dB, sent in quarters.
    pub last_snr: Scaled,
    /// Direct duplicates.
    pub direct_dups: u16,
    /// Flood duplicates.
    pub flood_dups: u16,
    /// Receive airtime in seconds.
    pub rx_airtime_secs: u32,
}

} // verus!
