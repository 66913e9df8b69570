//! Classification of received packets into events.
//!
//! The first byte of a packet selects its kind; the rest is decoded by that
//! kind's decoder. A body that does not decode becomes a raw event carrying
//! the kind byte and the body, so no packet is ever dropped silently.

use vstd::prelude::*;

use crate::contact::PublicKey;
use crate::event::{Event, StatsData};
use crate::packet::{packet_code, PacketType};
use crate::parser::{
    battery_from, channel_from, channel_message_from, contact_from, contact_message_from,
    core_stats_from, device_info_from, device_status_from, packet_stats_from, parse_battery,
    parse_channel, parse_channel_message, parse_contact, parse_contact_message, parse_core_stats,
    parse_device_info, parse_device_status, parse_packet_stats, parse_radio_stats, parse_self_info,
    radio_stats_from, self_info_from, CONTACT_MIN, SELF_INFO_MIN,
};
use crate::message::Acknowledgment;
use crate::stats::{stats_type_of, StatsType};
use crate::telemetry::{lpp_decoded, Telemetry};
use crate::text::{hex_encode, hex_lower, lossy_text, text_from_bytes};
use crate::wire::{copy_bytes, le_u32, read_u32_le};
use vstd::string::StringExecFns;

verus! {

/// Whether `e` is the raw event for a packet of kind byte `code` and body `d`.
pub open spec fn raw_of(code: u8, d: Seq<u8>, e: Event) -> bool {
    e matches Event::Raw { packet_type, data } && packet_type == code && data@ == d
}

/// A little-endian count or timestamp, or zero when the body is too short.
pub open spec fn u32_or_zero(d: Seq<u8>) -> u32 {
    if d.len() >= 4 {
        le_u32(d, 0)
    } else {
        0
    }
}

/// Whether `e` is the statistics event for body `d`, or the raw fallback.
pub open spec fn stats_event(d: Seq<u8>, e: Event) -> bool {
    let rest = d.drop_first();
    match stats_type_of(d[0]) {
        Some(StatsType::Core) => if rest.len() >= 9 {
            e == Event::Stats(StatsData::Core(core_stats_from(rest)))
        } else {
            raw_of(0x18, d, e)
        },
        Some(StatsType::Radio) => if rest.len() >= 12 {
            e == Event::Stats(StatsData::Radio(radio_stats_from(rest)))
        } else {
            raw_of(0x18, d, e)
        },
        Some(StatsType::Packets) => if rest.len() >= 24 {
            e == Event::Stats(StatsData::Packets(packet_stats_from(rest)))
        } else {
            raw_of(0x18, d, e)
        },
        None => raw_of(0x18, d, e),
    }
}

/// Whether `e` is the event that the non-empty packet `p` decodes to.
pub open spec fn packet_event(p: Seq<u8>, e: Event) -> bool {
    kind_event(p[0], p.drop_first(), e)
}

/// Whether `e` is the event for a packet of kind byte `code` and body `d`.
pub open spec fn kind_event(code: u8, d: Seq<u8>, e: Event) -> bool {
    if code == 0x00 {
        e is Success
    } else if code == 0x01 {
        e matches Event::Error { message } && message@ == lossy_text(d)
    } else if code == 0x02 {
        e == Event::ContactListStart { count: u32_or_zero(d) }
    } else if code == 0x03 {
        if d.len() >= CONTACT_MIN {
            e matches Event::Contact(c) && contact_from(d, *c)
        } else {
            raw_of(code, d, e)
        }
    } else if code == 0x04 {
        e == Event::ContactListEnd { last_modified: u32_or_zero(d) }
    } else if code == 0x05 {
        if d.len() >= SELF_INFO_MIN {
            e matches Event::SelfInfo(i) && self_info_from(d, *i)
        } else {
            raw_of(code, d, e)
        }
    } else if code == 0x06 {
        if d.len() >= 9 {
            e == Event::MessageSent { expected_ack: le_u32(d, 1), timeout_ms: le_u32(d, 5) }
        } else {
            raw_of(code, d, e)
        }
    } else if code == 0x07 || code == 0x10 {
        let v3 = code == 0x10;
        if d.len() >= (if v3 { 15int } else { 12int }) {
            e matches Event::ContactMessage(m) && contact_message_from(d, v3, *m)
        } else {
            raw_of(code, d, e)
        }
    } else if code == 0x08 || code == 0x11 {
        let v3 = code == 0x11;
        if d.len() >= (if v3 { 10int } else { 7int }) {
            e matches Event::ChannelMessage(m) && channel_message_from(d, v3, *m)
        } else {
            raw_of(code, d, e)
        }
    } else if code == 0x09 {
        if d.len() >= 4 {
            e == Event::CurrentTime(le_u32(d, 0))
        } else {
            raw_of(code, d, e)
        }
    } else if code == 0x0A {
        e is NoMoreMessages
    } else if code == 0x0B {
        e matches Event::ContactUri(s) && s@ == "meshcore://"@ + hex_lower(d)
    } else if code == 0x0C {
        if d.len() >= 2 {
            e == Event::Battery(battery_from(d))
        } else {
            raw_of(code, d, e)
        }
    } else if code == 0x0D {
        if d.len() >= 1 {
            e matches Event::DeviceInfo(i) && device_info_from(d, *i)
        } else {
            raw_of(code, d, e)
        }
    } else if code == 0x0E {
        if d.len() >= 64 {
            e matches Event::PrivateKey(k) && k@ == d.take(64)
        } else {
            raw_of(code, d, e)
        }
    } else if code == 0x0F {
        e is Disabled
    } else if code == 0x12 {
        if d.len() >= 49 {
            e matches Event::ChannelInfo(c) && channel_from(d, *c)
        } else {
            raw_of(code, d, e)
        }
    } else if code == 0x13 {
        if d.len() >= 5 {
            e == Event::SignStarted { max_length: le_u32(d, 1) }
        } else {
            raw_of(code, d, e)
        }
    } else if code == 0x14 {
        if d.len() > 0 {
            e matches Event::Signature(s) && s@ == d
        } else {
            raw_of(code, d, e)
        }
    } else if code == 0x15 {
        e matches Event::CustomVars(s) && s@ == lossy_text(d)
    } else if code == 0x18 {
        if d.len() > 0 {
            stats_event(d, e)
        } else {
            raw_of(code, d, e)
        }
    } else if code == 0x80 || code == 0x81 {
        if d.len() >= 32 {
            if code == 0x80 {
                e matches Event::Advertisement(k) && k@ == d.take(32)
            } else {
                e matches Event::PathUpdate(k) && k@ == d.take(32)
            }
        } else {
            raw_of(code, d, e)
        }
    } else if code == 0x82 {
        if d.len() >= 4 {
            e == Event::Ack(Acknowledgment { code: le_u32(d, 0) })
        } else {
            raw_of(code, d, e)
        }
    } else if code == 0x83 {
        e is MessagesWaiting
    } else if code == 0x84 {
        e matches Event::RawData(b) && b@ == d
    } else if code == 0x85 {
        e is LoginSuccess
    } else if code == 0x86 {
        e is LoginFailed
    } else if code == 0x87 {
        if d.len() >= 59 {
            e matches Event::StatusResponse(s) && device_status_from(d.drop_first(), *s)
        } else {
            raw_of(code, d, e)
        }
    } else if code == 0x88 {
        e matches Event::LogData(s) && s@ == lossy_text(d)
    } else if code == 0x89 {
        e matches Event::TraceData(b) && b@ == d
    } else if code == 0x8A {
        if d.len() >= CONTACT_MIN {
            e matches Event::NewContactAdvert(c) && contact_from(d, *c)
        } else {
            raw_of(code, d, e)
        }
    } else if code == 0x8B {
        e matches Event::TelemetryResponse(t) && if d.len() > 7 {
            lpp_decoded(d.subrange(7, d.len() as int), t.readings@)
        } else {
            t.readings@.len() == 0
        }
    } else if code == 0x8C {
        e matches Event::BinaryResponse(b) && b@ == d
    } else if code == 0x8D {
        e matches Event::PathDiscoveryResponse(b) && b@ == d
    } else if code == 0x8E {
        e matches Event::ControlData(b) && b@ == d
    } else {
        raw_of(code, d, e)
    }
}

fn raw_event(code: u8, data: &[u8]) -> (r: Event)
    ensures
        raw_of(code, data@, r),
{
    Event::Raw { packet_type: code, data: copy_bytes(data) }
}

fn u32_or_zero_at(data: &[u8]) -> (r: u32)
    ensures
        r == u32_or_zero(data@),
{
    if data.len() >= 4 {
        read_u32_le(data, 0)
    } else {
        0
    }
}

fn decode_stats(data: &[u8]) -> (r: Event)
    requires
        data@.len() > 0,
    ensures
        stats_event(data@, r),
{
    let rest = &data[1..data.len()];
    assert(rest@ == data@.drop_first());
    match StatsType::from_byte(data[0]) {
        Some(StatsType::Core) => match parse_core_stats(rest) {
            Ok(s) => Event::Stats(StatsData::Core(s)),
            Err(_) => raw_event(0x18, data),
        },
        Some(StatsType::Radio) => match parse_radio_stats(rest) {
            Ok(s) => Event::Stats(StatsData::Radio(s)),
            Err(_) => raw_event(0x18, data),
        },
        Some(StatsType::Packets) => match parse_packet_stats(rest) {
            Ok(s) => Event::Stats(StatsData::Packets(s)),
            Err(_) => raw_event(0x18, data),
        },
        None => raw_event(0x18, data),
    }
}

fn key_event(code: u8, data: &[u8]) -> (r: Event)
    requires
        code == 0x80 || code == 0x81,
    ensures
        if data@.len() >= 32 {
            if code == 0x80 {
                r matches Event::Advertisement(k) && k@ == data@.take(32)
            } else {
                r matches Event::PathUpdate(k) && k@ == data@.take(32)
            }
        } else {
            raw_of(code, data@, r)
        },
{
    if data.len() >= 32 {
        let key = PublicKey::from_bytes(&data[0..32]);
        if code == 0x80 {
            Event::Advertisement(key)
        } else {
            Event::PathUpdate(key)
        }
    } else {
        raw_event(code, data)
    }
}

fn private_key_event(data: &[u8]) -> (r: Event)
    ensures
        if data@.len() >= 64 {
            r matches Event::PrivateKey(k) && k@ == data@.take(64)
        } else {
            raw_of(0x0E, data@, r)
        },
{
    if data.len() < 64 {
        return raw_event(0x0E, data);
    }
    let mut key = [0u8; 64];
    let mut i: usize = 0;
    while i < 64
        invariant
            data@.len() >= 64,
            i <= 64,
            forall|j: int| 0 <= j < i ==> key@[j] == data@[j],
        decreases 64 - i,
    {
        key[i] = data[i];
        i = i + 1;
    }
    assert(key@ =~= data@.take(64));
    Event::PrivateKey(key)
}

fn telemetry_event(data: &[u8]) -> (r: Event)
    ensures
        r matches Event::TelemetryResponse(t) && if data@.len() > 7 {
            lpp_decoded(data@.subrange(7, data@.len() as int), t.readings@)
        } else {
            t.readings@.len() == 0
        },
{
    if data.len() > 7 {
        Event::TelemetryResponse(Box::new(Telemetry::parse_lpp(&data[7..data.len()])))
    } else {
        Event::TelemetryResponse(Box::new(Telemetry::new()))
    }
}

/// Decodes a received packet into its event; `None` for an empty packet,
/// which has no kind byte.
pub fn decode_packet(packet: &[u8]) -> (r: Option<Event>)
    ensures
        r is None <==> packet@.len() == 0,
        r matches Some(e) ==> packet_event(packet@, e),
{
    if packet.len() == 0 {
        return None;
    }
    let data = &packet[1..packet.len()];
    assert(data@ == packet@.drop_first());
    Some(decode_kind(packet[0], data))
}

proof fn lemma_unhandled_code(code: u8)
    requires
        forall|p: PacketType| packet_code(p) != code,
    ensures
        code != 0x00,
        code != 0x01,
        code != 0x02,
        code != 0x03,
        code != 0x04,
        code != 0x05,
        code != 0x06,
        code != 0x07,
        code != 0x10,
        code != 0x08,
        code != 0x11,
        code != 0x09,
        code != 0x0A,
        code != 0x0B,
        code != 0x0C,
        code != 0x0D,
        code != 0x0E,
        code != 0x0F,
        code != 0x12,
        code != 0x13,
        code != 0x14,
        code != 0x15,
        code != 0x18,
        code != 0x80,
        code != 0x81,
        code != 0x82,
        code != 0x83,
        code != 0x84,
        code != 0x85,
        code != 0x86,
        code != 0x87,
        code != 0x88,
        code != 0x89,
        code != 0x8A,
        code != 0x8B,
        code != 0x8C,
        code != 0x8D,
        code != 0x8E,
{
    assert(packet_code(PacketType::Success) == 0x00);
    assert(packet_code(PacketType::Error) == 0x01);
    assert(packet_code(PacketType::ContactStart) == 0x02);
    assert(packet_code(PacketType::Contact) == 0x03);
    assert(packet_code(PacketType::ContactEnd) == 0x04);
    assert(packet_code(PacketType::SelfInfo) == 0x05);
    assert(packet_code(PacketType::MsgSent) == 0x06);
    assert(packet_code(PacketType::ContactMsgRecv) == 0x07);
    assert(packet_code(PacketType::ContactMsgRecvV3) == 0x10);
    assert(packet_code(PacketType::ChannelMsgRecv) == 0x08);
    assert(packet_code(PacketType::ChannelMsgRecvV3) == 0x11);
    assert(packet_code(PacketType::CurrentTime) == 0x09);
    assert(packet_code(PacketType::NoMoreMsgs) == 0x0A);
    assert(packet_code(PacketType::ContactUri) == 0x0B);
    assert(packet_code(PacketType::Battery) == 0x0C);
    assert(packet_code(PacketType::DeviceInfo) == 0x0D);
    assert(packet_code(PacketType::PrivateKey) == 0x0E);
    assert(packet_code(PacketType::Disabled) == 0x0F);
    assert(packet_code(PacketType::ChannelInfo) == 0x12);
    assert(packet_code(PacketType::SignStart) == 0x13);
    assert(packet_code(PacketType::Signature) == 0x14);
    assert(packet_code(PacketType::CustomVars) == 0x15);
    assert(packet_code(PacketType::Stats) == 0x18);
    assert(packet_code(PacketType::Advertisement) == 0x80);
    assert(packet_code(PacketType::PathUpdate) == 0x81);
    assert(packet_code(PacketType::Ack) == 0x82);
    assert(packet_code(PacketType::MessagesWaiting) == 0x83);
    assert(packet_code(PacketType::RawData) == 0x84);
    assert(packet_code(PacketType::LoginSuccess) == 0x85);
    assert(packet_code(PacketType::LoginFailed) == 0x86);
    assert(packet_code(PacketType::StatusResponse) == 0x87);
    assert(packet_code(PacketType::LogData) == 0x88);
    assert(packet_code(PacketType::TraceData) == 0x89);
    assert(packet_code(PacketType::PushNewAdvert) == 0x8A);
    assert(packet_code(PacketType::TelemetryResponse) == 0x8B);
    assert(packet_code(PacketType::BinaryResponse) == 0x8C);
    assert(packet_code(PacketType::PathDiscoveryResponse) == 0x8D);
    assert(packet_code(PacketType::ControlData) == 0x8E);
}

/// Decodes the body `data` of a packet of kind byte `code`.
#[verifier::rlimit(50)]
pub fn decode_kind(code: u8, data: &[u8]) -> (r: Event)
    ensures
        kind_event(code, data@, r),
{
    match PacketType::from_byte(code) {
        Some(PacketType::Success) => Event::Success,
        Some(PacketType::Error) => Event::Error { message: text_from_bytes(data) },
        Some(PacketType::ContactStart) => Event::ContactListStart { count: u32_or_zero_at(data) },
        Some(PacketType::Contact) => match parse_contact(data) {
            Ok(c) => Event::Contact(Box::new(c)),
            Err(_) => raw_event(code, data),
        },
        Some(PacketType::ContactEnd) => Event::ContactListEnd {
            last_modified: u32_or_zero_at(data),
        },
        Some(PacketType::SelfInfo) => match parse_self_info(data) {
            Ok(i) => Event::SelfInfo(Box::new(i)),
            Err(_) => raw_event(code, data),
        },
        Some(PacketType::MsgSent) => {
            if data.len() >= 9 {
                Event::MessageSent {
                    expected_ack: read_u32_le(data, 1),
                    timeout_ms: read_u32_le(data, 5),
                }
            } else {
                raw_event(code, data)
            }
        },
        Some(PacketType::ContactMsgRecv) => match parse_contact_message(data, false) {
            Ok(m) => Event::ContactMessage(Box::new(m)),
            Err(_) => raw_event(code, data),
        },
        Some(PacketType::ContactMsgRecvV3) => match parse_contact_message(data, true) {
            Ok(m) => Event::ContactMessage(Box::new(m)),
            Err(_) => raw_event(code, data),
        },
        Some(PacketType::ChannelMsgRecv) => match parse_channel_message(data, false) {
            Ok(m) => Event::ChannelMessage(Box::new(m)),
            Err(_) => raw_event(code, data),
        },
        Some(PacketType::ChannelMsgRecvV3) => match parse_channel_message(data, true) {
            Ok(m) => Event::ChannelMessage(Box::new(m)),
            Err(_) => raw_event(code, data),
        },
        Some(PacketType::CurrentTime) => {
            if data.len() >= 4 {
                Event::CurrentTime(read_u32_le(data, 0))
            } else {
                raw_event(code, data)
            }
        },
        Some(PacketType::NoMoreMsgs) => Event::NoMoreMessages,
        Some(PacketType::ContactUri) => {
            let hex = hex_encode(data);
            Event::ContactUri("meshcore://".to_owned().concat(hex.as_str()))
        },
        Some(PacketType::Battery) => match parse_battery(data) {
            Ok(b) => Event::Battery(b),
            Err(_) => raw_event(code, data),
        },
        Some(PacketType::DeviceInfo) => match parse_device_info(data) {
            Ok(i) => Event::DeviceInfo(Box::new(i)),
            Err(_) => raw_event(code, data),
        },
        Some(PacketType::PrivateKey) => private_key_event(data),
        Some(PacketType::Disabled) => Event::Disabled,
        Some(PacketType::ChannelInfo) => match parse_channel(data) {
            Ok(c) => Event::ChannelInfo(Box::new(c)),
            Err(_) => raw_event(code, data),
        },
        Some(PacketType::SignStart) => {
            if data.len() >= 5 {
                Event::SignStarted { max_length: read_u32_le(data, 1) }
            } else {
                raw_event(code, data)
            }
        },
        Some(PacketType::Signature) => {
            if data.len() > 0 {
                Event::Signature(copy_bytes(data))
            } else {
                raw_event(code, data)
            }
        },
        Some(PacketType::CustomVars) => Event::CustomVars(text_from_bytes(data)),
        Some(PacketType::Stats) => {
            if data.len() > 0 {
                decode_stats(data)
            } else {
                raw_event(code, data)
            }
        },
        Some(PacketType::Advertisement) => key_event(code, data),
        Some(PacketType::PathUpdate) => key_event(code, data),
        Some(PacketType::Ack) => {
            if data.len() >= 4 {
                Event::Ack(Acknowledgment { code: read_u32_le(data, 0) })
            } else {
                raw_event(code, data)
            }
        },
        Some(PacketType::MessagesWaiting) => Event::MessagesWaiting,
        Some(PacketType::RawData) => Event::RawData(copy_bytes(data)),
        Some(PacketType::LoginSuccess) => Event::LoginSuccess,
        Some(PacketType::LoginFailed) => Event::LoginFailed,
        Some(PacketType::StatusResponse) => {
            if data.len() > 1 {
                let body = &data[1..data.len()];
                assert(body@ == data@.drop_first());
                match parse_device_status(body) {
                    Ok(s) => Event::StatusResponse(Box::new(s)),
                    Err(_) => raw_event(code, data),
                }
            } else {
                raw_event(code, data)
            }
        },
        Some(PacketType::LogData) => Event::LogData(text_from_bytes(data)),
        Some(PacketType::TraceData) => Event::TraceData(copy_bytes(data)),
        Some(PacketType::PushNewAdvert) => match parse_contact(data) {
            Ok(c) => Event::NewContactAdvert(Box::new(c)),
            Err(_) => raw_event(code, data),
        },
        Some(PacketType::TelemetryResponse) => telemetry_event(data),
        Some(PacketType::BinaryResponse) => Event::BinaryResponse(copy_bytes(data)),
        Some(PacketType::PathDiscoveryResponse) => Event::PathDiscoveryResponse(
            copy_bytes(data),
        ),
        Some(PacketType::ControlData) => Event::ControlData(copy_bytes(data)),
        Some(_) => raw_event(code, data),
        None => {
            proof {
                lemma_unhandled_code(code);
            }
            raw_event(code, data)
        },
    }
}

} // verus!
