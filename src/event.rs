//! The event model: one event per received packet, plus connection events.

use vstd::prelude::*;

use crate::contact::{Contact, PublicKey};
use crate::device::{BatteryStatus, Channel, DeviceInfo, SelfInfo};
use crate::message::{Acknowledgment, ChannelMessage, ContactMessage};
use crate::packet::PacketType;
use crate::stats::{CoreStats, DeviceStatus, PacketStats, RadioStats};
use crate::telemetry::Telemetry;

verus! {

/// Statistics of one group.
#[derive(Debug, Clone)]
pub enum StatsData {
    /// Core statistics.
    Core(CoreStats),
    /// Radio statistics.
    Radio(RadioStats),
    /// Packet counters.
    Packets(PacketStats),
}

/// Events delivered to subscribers: one per received packet, plus the
/// connection events.
#[derive(Debug, Clone)]
pub enum Event {
    /// Connection established.
    Connected,
    /// Connection lost.
    Disconnected,
    /// Command completed successfully.
    Success,
    /// Command failed with error.
    Error { message: String },
    /// Self info received.
    SelfInfo(Box<SelfInfo>),
    /// Device info received.
    DeviceInfo(Box<DeviceInfo>),
    /// Battery status received.
    Battery(BatteryStatus),
    /// Contact received.
    Contact(Box<Contact>),
    /// Contact list started (contains expected contact count).
    ContactListStart { count: u32 },
    /// Contact list ended (contains last modification timestamp).
    ContactListEnd { last_modified: u32 },
    /// Private message received.
    ContactMessage(Box<ContactMessage>),
    /// Channel message received.
    ChannelMessage(Box<ChannelMessage>),
    /// Message was sent, waiting for ACK.
    MessageSent { expected_ack: u32, timeout_ms: u32 },
    /// ACK received.
    Ack(Acknowledgment),
    /// No more messages available.
    NoMoreMessages,
    /// Messages are waiting on the device.
    MessagesWaiting,
    /// Simple advertisement received (just public key, 0x80).
    Advertisement(PublicKey),
    /// New contact advertisement received (full contact data, 0x8A).
    NewContactAdvert(Box<Contact>),
    /// Status response received.
    StatusResponse(Box<DeviceStatus>),
    /// Current time received.
    CurrentTime(u32),
    /// Statistics response received.
    Stats(StatsData),
    /// Channel information received.
    ChannelInfo(Box<Channel>),
    /// Telemetry response received.
    TelemetryResponse(Box<Telemetry>),
    /// Login was successful.
    LoginSuccess,
    /// Login failed.
    LoginFailed,
    /// Private key received (64 bytes: seed + public key).
    PrivateKey([u8; 64]),
    /// Device is disabled.
    Disabled,
    /// Signature received (variable length).
    Signature(Vec<u8>),
    /// Contact URI received.
    ContactUri(String),
    /// Path update notification (contains public key of updated contact).
    PathUpdate(PublicKey),
    /// Raw binary data received.
    RawData(Vec<u8>),
    /// Log data received.
    LogData(String),
    /// Trace data received.
    TraceData(Vec<u8>),
    /// Custom variables received (comma-separated key:value pairs).
    CustomVars(String),
    /// Binary response received.
    BinaryResponse(Vec<u8>),
    /// Path discovery response received.
    PathDiscoveryResponse(Vec<u8>),
    /// Control data received.
    ControlData(Vec<u8>),
    /// Sign operation started, returns max data length.
    SignStarted { max_length: u32 },
    /// Raw/unknown packet received.
    Raw { packet_type: u8, data: Vec<u8> },
}

/// The packet kind that an event stands for; connection events and raw
/// packets have none.
pub open spec fn event_kind(e: Event) -> Option<PacketType> {
    match e {
        Event::Success { .. } => Some(PacketType::Success),
        Event::Error { .. } => Some(PacketType::Error),
        Event::SelfInfo { .. } => Some(PacketType::SelfInfo),
        Event::DeviceInfo { .. } => Some(PacketType::DeviceInfo),
        Event::Battery { .. } => Some(PacketType::Battery),
        Event::Contact { .. } => Some(PacketType::Contact),
        Event::ContactListStart { .. } => Some(PacketType::ContactStart),
        Event::ContactListEnd { .. } => Some(PacketType::ContactEnd),
        Event::ContactMessage { .. } => Some(PacketType::ContactMsgRecv),
        Event::ChannelMessage { .. } => Some(PacketType::ChannelMsgRecv),
        Event::MessageSent { .. } => Some(PacketType::MsgSent),
        Event::Ack { .. } => Some(PacketType::Ack),
        Event::NoMoreMessages { .. } => Some(PacketType::NoMoreMsgs),
        Event::MessagesWaiting { .. } => Some(PacketType::MessagesWaiting),
        Event::Advertisement { .. } => Some(PacketType::Advertisement),
        Event::NewContactAdvert { .. } => Some(PacketType::PushNewAdvert),
        Event::StatusResponse { .. } => Some(PacketType::StatusResponse),
        Event::CurrentTime { .. } => Some(PacketType::CurrentTime),
        Event::Stats { .. } => Some(PacketType::Stats),
        Event::ChannelInfo { .. } => Some(PacketType::ChannelInfo),
        Event::TelemetryResponse { .. } => Some(PacketType::TelemetryResponse),
        Event::LoginSuccess { .. } => Some(PacketType::LoginSuccess),
        Event::LoginFailed { .. } => Some(PacketType::LoginFailed),
        Event::PrivateKey { .. } => Some(PacketType::PrivateKey),
        Event::Disabled { .. } => Some(PacketType::Disabled),
        Event::Signature { .. } => Some(PacketType::Signature),
        Event::ContactUri { .. } => Some(PacketType::ContactUri),
        Event::PathUpdate { .. } => Some(PacketType::PathUpdate),
        Event::RawData { .. } => Some(PacketType::RawData),
        Event::LogData { .. } => Some(PacketType::LogData),
        Event::TraceData { .. } => Some(PacketType::TraceData),
        Event::CustomVars { .. } => Some(PacketType::CustomVars),
        Event::BinaryResponse { .. } => Some(PacketType::BinaryResponse),
        Event::PathDiscoveryResponse { .. } => Some(PacketType::PathDiscoveryResponse),
        Event::ControlData { .. } => Some(PacketType::ControlData),
        Event::SignStarted { .. } => Some(PacketType::SignStart),
        _ => None,
    }
}

impl Event {
    /// The packet kind this event stands for, if any.
    pub fn packet_type(&self) -> (r: Option<PacketType>)
        ensures
            r == event_kind(*self),
    {
        match self {
            Event::Success { .. } => Some(PacketType::Success),
            Event::Error { .. } => Some(PacketType::Error),
            Event::SelfInfo { .. } => Some(PacketType::SelfInfo),
            Event::DeviceInfo { .. } => Some(PacketType::DeviceInfo),
            Event::Battery { .. } => Some(PacketType::Battery),
            Event::Contact { .. } => Some(PacketType::Contact),
            Event::ContactListStart { .. } => Some(PacketType::ContactStart),
            Event::ContactListEnd { .. } => Some(PacketType::ContactEnd),
            Event::ContactMessage { .. } => Some(PacketType::ContactMsgRecv),
            Event::ChannelMessage { .. } => Some(PacketType::ChannelMsgRecv),
            Event::MessageSent { .. } => Some(PacketType::MsgSent),
            Event::Ack { .. } => Some(PacketType::Ack),
            Event::NoMoreMessages { .. } => Some(PacketType::NoMoreMsgs),
            Event::MessagesWaiting { .. } => Some(PacketType::MessagesWaiting),
            Event::Advertisement { .. } => Some(PacketType::Advertisement),
            Event::NewContactAdvert { .. } => Some(PacketType::PushNewAdvert),
            Event::StatusResponse { .. } => Some(PacketType::StatusResponse),
            Event::CurrentTime { .. } => Some(PacketType::CurrentTime),
            Event::Stats { .. } => Some(PacketType::Stats),
            Event::ChannelInfo { .. } => Some(PacketType::ChannelInfo),
            Event::TelemetryResponse { .. } => Some(PacketType::TelemetryResponse),
            Event::LoginSuccess { .. } => Some(PacketType::LoginSuccess),
            Event::LoginFailed { .. } => Some(PacketType::LoginFailed),
            Event::PrivateKey { .. } => Some(PacketType::PrivateKey),
            Event::Disabled { .. } => Some(PacketType::Disabled),
            Event::Signature { .. } => Some(PacketType::Signature),
            Event::ContactUri { .. } => Some(PacketType::ContactUri),
            Event::PathUpdate { .. } => Some(PacketType::PathUpdate),
            Event::RawData { .. } => Some(PacketType::RawData),
            Event::LogData { .. } => Some(PacketType::LogData),
            Event::TraceData { .. } => Some(PacketType::TraceData),
            Event::CustomVars { .. } => Some(PacketType::CustomVars),
            Event::BinaryResponse { .. } => Some(PacketType::BinaryResponse),
            Event::PathDiscoveryResponse { .. } => Some(PacketType::PathDiscoveryResponse),
            Event::ControlData { .. } => Some(PacketType::ControlData),
            Event::SignStarted { .. } => Some(PacketType::SignStart),
            _ => None,
        }
    }
}

/// Which events a waiter accepts.
#[derive(Debug, Clone, Default)]
pub struct EventFilter {
    /// If set, only events of these packet kinds.
    pub packet_types: Option<Vec<PacketType>>,
    /// If set, only acknowledgements carrying this code.
    pub ack_code: Option<u32>,
}

/// Whether filter `f` accepts event `e`.
pub open spec fn filter_accepts(f: EventFilter, e: Event) -> bool {
    &&& f.packet_types matches Some(ts) ==> event_kind(e) matches Some(k) && ts@.contains(k)
    &&& f.ack_code matches Some(c) ==> e matches Event::Ack(a) && a.code == c
}

impl EventFilter {
    /// Accepts events of the given packet kinds.
    pub fn packet_types(types: Vec<PacketType>) -> (r: Self)
        ensures
            r.packet_types matches Some(ts) && ts@ == types@,
            r.ack_code is None,
    {
        EventFilter { packet_types: Some(types), ack_code: None }
    }

    /// Accepts acknowledgements carrying exactly `code`.
    pub fn ack(code: u32) -> (r: Self)
        ensures
            r.packet_types matches Some(ts) && ts@ == seq![PacketType::Ack],
            r.ack_code == Some(code),
            forall|e: Event| filter_accepts(r, e) <==> (e matches Event::Ack(a) && a.code == code),
    {
        let r = EventFilter { packet_types: Some(vec![PacketType::Ack]), ack_code: Some(code) };
        assert forall|e: Event| filter_accepts(r, e) <==> (e matches Event::Ack(a) && a.code
            == code) by {
            if e is Ack {
                assert(r.packet_types->0@[0] == PacketType::Ack);
            }
        }
        r
    }

    /// Whether this filter accepts `event`.
    pub fn matches(&self, event: &Event) -> (r: bool)
        ensures
            r == filter_accepts(*self, *event),
    {
        if let Some(types) = &self.packet_types {
            match event.packet_type() {
                None => {
                    return false;
                },
                Some(kind) => {
                    let mut i: usize = 0;
                    let mut found = false;
                    while i < types.len()
                        invariant
                            i <= types@.len(),
                            found == (exists|j: int| 0 <= j < i && types@[j] == kind),
                        decreases types@.len() - i,
                    {
                        if types[i] == kind {
                            found = true;
                        }
                        i = i + 1;
                    }
                    if !found {
                        return false;
                    }
                    assert(types@.contains(kind));
                },
            }
        }
        if let Some(expected) = self.ack_code {
            match event {
                Event::Ack(a) => {
                    if a.code != expected {
                        return false;
                    }
                },
                _ => {
                    return false;
                },
            }
        }
        true
    }
}

} // verus!
