//! Decoders of the device's packet bodies.
//!
//! Each decoder checks the body's length before reading any field and
//! fails with a protocol error when it is too short. Multi-byte numbers are
//! little-endian.

use vstd::prelude::*;

use crate::contact::{contact_type_of, Contact, ContactFlags, ContactType, PublicKey};
use crate::device::{BatteryStatus, Channel, DeviceInfo, RadioConfig, SelfInfo, TelemetryMode};
use crate::error::Error;
use crate::message::{text_type_of, ChannelMessage, ContactMessage, SignalQuality, TextType};
use crate::scaled::Scaled;
use crate::stats::{CoreStats, DeviceStatus, PacketStats, RadioStats};
use crate::text::{lossy_text, parse_string, text_field, text_from_bytes};
use crate::wire::{
    as_i8, copy_bytes, le_i16, le_i32, le_u16, le_u32, read_i16_le, read_i32_le, read_u16_le,
    read_u32_le, signed_i8,
};

verus! {

/// Relies on `format!`: a protocol error naming a body that is too short.
#[verifier::external_body]
fn too_short(what: &str, len: usize) -> (r: Error)
    ensures
        r is Protocol,
{
    Error::Protocol { message: format!("{what} too short: {len} bytes") }
}

/// A coordinate sent in millionths of a degree; zero means "not set".
pub open spec fn coord_of(v: i32) -> Option<Scaled> {
    if v == 0 {
        None
    } else {
        Some(Scaled { raw: v as i64, scale: 1_000_000 })
    }
}

/// Decodes a coordinate sent in millionths of a degree. Zero stands for
/// "not set", so the true origin cannot be represented.
pub fn parse_coord(value: i32) -> (r: Option<Scaled>)
    ensures
        r == coord_of(value),
{
    if value == 0 {
        None
    } else {
        Some(Scaled { raw: value as i64, scale: 1_000_000 })
    }
}

/// The bytes from `a` up to `b`.
pub open spec fn span(d: Seq<u8>, a: int, b: int) -> Seq<u8> {
    d.subrange(a, b)
}

/// Shortest self-description body.
pub const SELF_INFO_MIN: usize = 57;

/// Whether `r` is the self-description held in `d`.
pub open spec fn self_info_from(d: Seq<u8>, r: SelfInfo) -> bool {
    &&& r.advert_type == d[0]
    &&& r.tx_power == d[1]
    &&& r.max_tx_power == d[2]
    &&& r.public_key@ == span(d, 3, 35)
    &&& r.latitude == coord_of(le_i32(d, 35))
    &&& r.longitude == coord_of(le_i32(d, 39))
    &&& r.multi_acks == d[43]
    &&& r.advert_loc_policy == d[44]
    &&& r.telemetry_mode == (TelemetryMode {
        env: (d[45] >> 4u8) & 3u8,
        loc: (d[45] >> 2u8) & 3u8,
        base: d[45] & 3u8,
    })
    &&& r.manual_add_contacts == (d[46] != 0)
    &&& r.radio == (RadioConfig {
        frequency_mhz: Scaled { raw: le_u32(d, 47) as i64, scale: 1000 },
        bandwidth_khz: Scaled { raw: le_u32(d, 51) as i64, scale: 1000 },
        spreading_factor: d[55],
        coding_rate: d[56],
    })
    &&& r.name@ == lossy_text(text_field(span(d, 57, d.len() as int), 32))
}

/// Decodes a self-description.
pub fn parse_self_info(data: &[u8]) -> (r: Result<SelfInfo, Error>)
    ensures
        r is Err <==> data@.len() < SELF_INFO_MIN,
        r matches Ok(info) ==> self_info_from(data@, info),
        r matches Err(e) ==> e is Protocol,
{
    if data.len() < SELF_INFO_MIN {
        return Err(too_short("SelfInfo", data.len()));
    }
    let public_key = PublicKey::from_bytes(&data[3..35]);
    let telemetry_mode = TelemetryMode::from_byte(data[45]);
    let name = parse_string(&data[57..data.len()], 32);
    Ok(
        SelfInfo {
            advert_type: data[0],
            tx_power: data[1],
            max_tx_power: data[2],
            public_key,
            latitude: parse_coord(read_i32_le(data, 35)),
            longitude: parse_coord(read_i32_le(data, 39)),
            multi_acks: data[43],
            advert_loc_policy: data[44],
            telemetry_mode,
            manual_add_contacts: data[46] != 0,
            radio: RadioConfig {
                frequency_mhz: Scaled { raw: read_u32_le(data, 47) as i64, scale: 1000 },
                bandwidth_khz: Scaled { raw: read_u32_le(data, 51) as i64, scale: 1000 },
                spreading_factor: data[55],
                coding_rate: data[56],
            },
            name,
        },
    )
}

/// Whether `r` is the device description held in `d`.
pub open spec fn device_info_from(d: Seq<u8>, r: DeviceInfo) -> bool {
    &&& r.firmware_version == d[0]
    &&& if d[0] >= 3 && d.len() >= 79 {
        &&& r.max_contacts == Some((2 * d[1]) as u16)
        &&& r.max_channels == Some(d[2])
        &&& r.ble_pin == Some(le_u32(d, 3))
        &&& r.build matches Some(s) && s@ == lossy_text(text_field(span(d, 7, 19), 12))
        &&& r.model matches Some(s) && s@ == lossy_text(text_field(span(d, 19, 59), 40))
        &&& r.version matches Some(s) && s@ == lossy_text(text_field(span(d, 59, 79), 20))
    } else {
        &&& r.max_contacts is None
        &&& r.max_channels is None
        &&& r.ble_pin is None
        &&& r.build is None
        &&& r.model is None
        &&& r.version is None
    }
}

/// Decodes a device description; firmware before version 3, or a body
/// without the extended fields, reports its version alone.
pub fn parse_device_info(data: &[u8]) -> (r: Result<DeviceInfo, Error>)
    ensures
        r is Err <==> data@.len() == 0,
        r matches Ok(info) ==> device_info_from(data@, info),
        r matches Err(e) ==> e is Protocol,
{
    if data.len() == 0 {
        return Err(Error::Protocol { message: "DeviceInfo empty".to_owned() });
    }
    let firmware_version = data[0];
    if firmware_version >= 3 && data.len() >= 79 {
        let max_contacts = 2 * (data[1] as u16);
        let build = parse_string(&data[7..19], 12);
        let model = parse_string(&data[19..59], 40);
        let version = parse_string(&data[59..79], 20);
        Ok(
            DeviceInfo {
                firmware_version,
                max_contacts: Some(max_contacts),
                max_channels: Some(data[2]),
                ble_pin: Some(read_u32_le(data, 3)),
                build: Some(build),
                model: Some(model),
                version: Some(version),
            },
        )
    } else {
        Ok(
            DeviceInfo {
                firmware_version,
                max_contacts: None,
                max_channels: None,
                ble_pin: None,
                build: None,
                model: None,
                version: None,
            },
        )
    }
}

/// Shortest directory entry.
pub const CONTACT_MIN: usize = 147;

/// How many bytes of the 64-byte path buffer a path length makes meaningful.
pub open spec fn path_used(len: i8) -> int {
    if len < 0 {
        0
    } else if len > 64 {
        64
    } else {
        len as int
    }
}

/// Whether `r` is the directory entry held in `d`.
pub open spec fn contact_from(d: Seq<u8>, r: Contact) -> bool {
    &&& r.public_key@ == span(d, 0, 32)
    &&& r.device_type == contact_type_of(d[32])
    &&& r.flags@ == d[33]
    &&& r.out_path_len == as_i8(d[34])
    &&& r.out_path@ == span(d, 35, 35 + path_used(as_i8(d[34])))
    &&& r.name@ == lossy_text(text_field(span(d, 99, 131), 32))
    &&& r.last_advert == le_u32(d, 131)
    &&& r.latitude == coord_of(le_i32(d, 135))
    &&& r.longitude == coord_of(le_i32(d, 139))
    &&& r.last_modified == le_u32(d, 143)
}

/// Decodes a directory entry.
pub fn parse_contact(data: &[u8]) -> (r: Result<Contact, Error>)
    ensures
        r is Err <==> data@.len() < CONTACT_MIN,
        r matches Ok(c) ==> contact_from(data@, c),
        r matches Err(e) ==> e is Protocol,
{
    if data.len() < CONTACT_MIN {
        return Err(too_short("Contact", data.len()));
    }
    let public_key = PublicKey::from_bytes(&data[0..32]);
    let out_path_len = signed_i8(data[34]);
    let used: usize = if out_path_len < 0 {
        0
    } else if out_path_len > 64 {
        64
    } else {
        out_path_len as usize
    };
    let out_path = copy_bytes(&data[35..35 + used]);
    let name = parse_string(&data[99..131], 32);
    Ok(
        Contact {
            public_key,
            device_type: ContactType::from_byte(data[32]),
            flags: ContactFlags::from_byte(data[33]),
            out_path_len,
            out_path,
            name,
            last_advert: read_u32_le(data, 131),
            latitude: parse_coord(read_i32_le(data, 135)),
            longitude: parse_coord(read_i32_le(data, 139)),
            last_modified: read_u32_le(data, 143),
        },
    )
}

/// Where the common fields of a message start: after the signal header in
/// the newer generation.
pub open spec fn message_offset(v3: bool) -> int {
    if v3 {
        3
    } else {
        0
    }
}

/// The signal quality that a newer-generation message carries.
pub open spec fn signal_of(d: Seq<u8>, v3: bool) -> Option<SignalQuality> {
    if v3 {
        Some(SignalQuality { snr: Scaled { raw: as_i8(d[0]) as i64, scale: 4 } })
    } else {
        None
    }
}

/// Whether `r` is the private message held in `d`.
pub open spec fn contact_message_from(d: Seq<u8>, v3: bool, r: ContactMessage) -> bool {
    let o = message_offset(v3);
    let t = o + 12;
    &&& r.signal == signal_of(d, v3)
    &&& r.sender_prefix@ == span(d, o, o + 6)
    &&& r.path_len == as_i8(d[o + 6])
    &&& r.text_type == text_type_of(d[o + 7])
    &&& r.timestamp == le_u32(d, o + 8)
    &&& if text_type_of(d[o + 7]) == TextType::Signed && d.len() >= t + 4 {
        &&& r.signature matches Some(s) && s@ == span(d, t, t + 4)
        &&& r.text@ == lossy_text(span(d, t + 4, d.len() as int))
    } else {
        &&& r.signature is None
        &&& r.text@ == lossy_text(span(d, t, d.len() as int))
    }
}

/// Decodes a private message of either generation.
pub fn parse_contact_message(data: &[u8], v3: bool) -> (r: Result<ContactMessage, Error>)
    ensures
        r is Err <==> data@.len() < message_offset(v3) + 12,
        r matches Ok(m) ==> contact_message_from(data@, v3, m),
        r matches Err(e) ==> e is Protocol,
{
    let o: usize = if v3 {
        3
    } else {
        0
    };
    if data.len() < o + 12 {
        return Err(too_short("ContactMessage", data.len()));
    }
    let signal = if v3 {
        Some(SignalQuality { snr: Scaled { raw: signed_i8(data[0]) as i64, scale: 4 } })
    } else {
        None
    };
    let sender_prefix: [u8; 6] = [
        data[o],
        data[o + 1],
        data[o + 2],
        data[o + 3],
        data[o + 4],
        data[o + 5],
    ];
    assert(sender_prefix@ =~= span(data@, o as int, o + 6));
    let text_type = TextType::from_byte(data[o + 7]);
    let t = o + 12;
    let (signature, text) = if text_type == TextType::Signed && data.len() >= t + 4 {
        (Some(copy_bytes(&data[t..t + 4])), text_from_bytes(&data[t + 4..data.len()]))
    } else {
        (None, text_from_bytes(&data[t..data.len()]))
    };
    Ok(
        ContactMessage {
            sender_prefix,
            path_len: signed_i8(data[o + 6]),
            text_type,
            timestamp: read_u32_le(data, o + 8),
            signature,
            text,
            signal,
        },
    )
}

/// Whether `r` is the channel message held in `d`.
pub open spec fn channel_message_from(d: Seq<u8>, v3: bool, r: ChannelMessage) -> bool {
    let o = message_offset(v3);
    &&& r.signal == signal_of(d, v3)
    &&& r.channel_index == d[o]
    &&& r.path_len == as_i8(d[o + 1])
    &&& r.text_type == text_type_of(d[o + 2])
    &&& r.timestamp == le_u32(d, o + 3)
    &&& r.text@ == lossy_text(span(d, o + 7, d.len() as int))
}

/// Decodes a channel message of either generation.
pub fn parse_channel_message(data: &[u8], v3: bool) -> (r: Result<ChannelMessage, Error>)
    ensures
        r is Err <==> data@.len() < message_offset(v3) + 7,
        r matches Ok(m) ==> channel_message_from(data@, v3, m),
        r matches Err(e) ==> e is Protocol,
{
    let o: usize = if v3 {
        3
    } else {
        0
    };
    if data.len() < o + 7 {
        return Err(too_short("ChannelMessage", data.len()));
    }
    let signal = if v3 {
        Some(SignalQuality { snr: Scaled { raw: signed_i8(data[0]) as i64, scale: 4 } })
    } else {
        None
    };
    Ok(
        ChannelMessage {
            channel_index: data[o],
            path_len: signed_i8(data[o + 1]),
            text_type: TextType::from_byte(data[o + 2]),
            timestamp: read_u32_le(data, o + 3),
            text: text_from_bytes(&data[o + 7..data.len()]),
            signal,
        },
    )
}

/// The battery status held in `d`.
pub open spec fn battery_from(d: Seq<u8>) -> BatteryStatus {
    BatteryStatus {
        millivolts: le_u16(d, 0),
        used_kb: if d.len() >= 10 {
            Some(le_u32(d, 2))
        } else {
            None
        },
        total_kb: if d.len() >= 10 {
            Some(le_u32(d, 6))
        } else {
            None
        },
    }
}

/// Decodes a battery status; storage figures come only with a 10-byte body.
pub fn parse_battery(data: &[u8]) -> (r: Result<BatteryStatus, Error>)
    ensures
        r is Err <==> data@.len() < 2,
        r matches Ok(b) ==> b == battery_from(data@),
        r matches Err(e) ==> e is Protocol,
{
    if data.len() < 2 {
        return Err(Error::Protocol { message: "Battery data too short".to_owned() });
    }
    let millivolts = read_u16_le(data, 0);
    let (used_kb, total_kb) = if data.len() >= 10 {
        (Some(read_u32_le(data, 2)), Some(read_u32_le(data, 6)))
    } else {
        (None, None)
    };
    Ok(BatteryStatus { millivolts, used_kb, total_kb })
}

/// Whether `r` is the channel configuration held in `d`.
pub open spec fn channel_from(d: Seq<u8>, r: Channel) -> bool {
    &&& r.index == d[0]
    &&& r.name@ == lossy_text(text_field(span(d, 1, 33), 32))
    &&& r.secret@ == span(d, 33, 49)
}

/// Decodes a channel configuration.
pub fn parse_channel(data: &[u8]) -> (r: Result<Channel, Error>)
    ensures
        r is Err <==> data@.len() < 49,
        r matches Ok(c) ==> channel_from(data@, c),
        r matches Err(e) ==> e is Protocol,
{
    if data.len() < 49 {
        return Err(too_short("Channel", data.len()));
    }
    let name = parse_string(&data[1..33], 32);
    let mut secret = [0u8; 16];
    let mut i: usize = 0;
    while i < 16
        invariant
            data@.len() >= 49,
            i <= 16,
            forall|j: int| 0 <= j < i ==> secret@[j] == data@[33 + j],
        decreases 16 - i,
    {
        secret[i] = data[33 + i];
        i = i + 1;
    }
    assert(secret@ =~= span(data@, 33, 49));
    Ok(Channel { index: data[0], name, secret })
}

/// Whether `r` is the device status held in `d`.
pub open spec fn device_status_from(d: Seq<u8>, r: DeviceStatus) -> bool {
    &&& r.pubkey_prefix@ == span(d, 0, 6)
    &&& r.battery_mv == le_u16(d, 6)
    &&& r.tx_queue_len == le_u16(d, 8)
    &&& r.noise_floor == le_i16(d, 10)
    &&& r.last_rssi == le_i16(d, 12)
    &&& r.packets_received == le_u32(d, 14)
    &&& r.packets_sent == le_u32(d, 18)
    &&& r.airtime_secs == le_u32(d, 22)
    &&& r.uptime_secs == le_u32(d, 26)
    &&& r.sent_flood == le_u32(d, 30)
    &&& r.sent_direct == le_u32(d, 34)
    &&& r.recv_flood == le_u32(d, 38)
    &&& r.recv_direct == le_u32(d, 42)
    &&& r.full_events == le_u16(d, 46)
    &&& r.last_snr == (Scaled { raw: le_i16(d, 48) as i64, scale: 4 })
    &&& r.direct_dups == le_u16(d, 50)
    &&& r.flood_dups == le_u16(d, 52)
    &&& r.rx_airtime_secs == le_u32(d, 54)
}

/// Decodes a device status.
pub fn parse_device_status(data: &[u8]) -> (r: Result<DeviceStatus, Error>)
    ensures
        r is Err <==> data@.len() < 58,
        r matches Ok(s) ==> device_status_from(data@, s),
        r matches Err(e) ==> e is Protocol,
{
    if data.len() < 58 {
        return Err(too_short("DeviceStatus", data.len()));
    }
    let pubkey_prefix: [u8; 6] = [data[0], data[1], data[2], data[3], data[4], data[5]];
    assert(pubkey_prefix@ =~= span(data@, 0, 6));
    Ok(
        DeviceStatus {
            pubkey_prefix,
            battery_mv: read_u16_le(data, 6),
            tx_queue_len: read_u16_le(data, 8),
            noise_floor: read_i16_le(data, 10),
            last_rssi: read_i16_le(data, 12),
            packets_received: read_u32_le(data, 14),
            packets_sent: read_u32_le(data, 18),
            airtime_secs: read_u32_le(data, 22),
            uptime_secs: read_u32_le(data, 26),
            sent_flood: read_u32_le(data, 30),
            sent_direct: read_u32_le(data, 34),
            recv_flood: read_u32_le(data, 38),
            recv_direct: read_u32_le(data, 42),
            full_events: read_u16_le(data, 46),
            last_snr: Scaled { raw: read_i16_le(data, 48) as i64, scale: 4 },
            direct_dups: read_u16_le(data, 50),
            flood_dups: read_u16_le(data, 52),
            rx_airtime_secs: read_u32_le(data, 54),
        },
    )
}

/// The core statistics held in `d`.
pub open spec fn core_stats_from(d: Seq<u8>) -> CoreStats {
    CoreStats {
        battery_mv: le_u16(d, 0),
        uptime_secs: le_u32(d, 2),
        errors: le_u16(d, 6),
        queue_len: d[8],
    }
}

/// Decodes core statistics.
pub fn parse_core_stats(data: &[u8]) -> (r: Result<CoreStats, Error>)
    ensures
        r is Err <==> data@.len() < 9,
        r matches Ok(s) ==> s == core_stats_from(data@),
        r matches Err(e) ==> e is Protocol,
{
    if data.len() < 9 {
        return Err(too_short("CoreStats", data.len()));
    }
    Ok(
        CoreStats {
            battery_mv: read_u16_le(data, 0),
            uptime_secs: read_u32_le(data, 2),
            errors: read_u16_le(data, 6),
            queue_len: data[8],
        },
    )
}

/// The radio statistics held in `d`.
pub open spec fn radio_stats_from(d: Seq<u8>) -> RadioStats {
    RadioStats {
        noise_floor: le_i16(d, 0),
        rssi: as_i8(d[2]),
        snr: Scaled { raw: as_i8(d[3]) as i64, scale: 4 },
        tx_airtime_secs: le_u32(d, 4),
        rx_airtime_secs: le_u32(d, 8),
    }
}

/// Decodes radio statistics.
pub fn parse_radio_stats(data: &[u8]) -> (r: Result<RadioStats, Error>)
    ensures
        r is Err <==> data@.len() < 12,
        r matches Ok(s) ==> s == radio_stats_from(data@),
        r matches Err(e) ==> e is Protocol,
{
    if data.len() < 12 {
        return Err(too_short("RadioStats", data.len()));
    }
    Ok(
        RadioStats {
            noise_floor: read_i16_le(data, 0),
            rssi: signed_i8(data[2]),
            snr: Scaled { raw: signed_i8(data[3]) as i64, scale: 4 },
            tx_airtime_secs: read_u32_le(data, 4),
            rx_airtime_secs: read_u32_le(data, 8),
        },
    )
}

/// The packet counters held in `d`.
pub open spec fn packet_stats_from(d: Seq<u8>) -> PacketStats {
    PacketStats {
        received: le_u32(d, 0),
        sent: le_u32(d, 4),
        flood_tx: le_u32(d, 8),
        direct_tx: le_u32(d, 12),
        flood_rx: le_u32(d, 16),
        direct_rx: le_u32(d, 20),
    }
}

/// Decodes packet counters.
pub fn parse_packet_stats(data: &[u8]) -> (r: Result<PacketStats, Error>)
    ensures
        r is Err <==> data@.len() < 24,
        r matches Ok(s) ==> s == packet_stats_from(data@),
        r matches Err(e) ==> e is Protocol,
{
    if data.len() < 24 {
        return Err(too_short("PacketStats", data.len()));
    }
    Ok(
        PacketStats {
            received: read_u32_le(data, 0),
            sent: read_u32_le(data, 4),
            flood_tx: read_u32_le(data, 8),
            direct_tx: read_u32_le(data, 12),
            flood_rx: read_u32_le(data, 16),
            direct_rx: read_u32_le(data, 20),
        },
    )
}

} // verus!
