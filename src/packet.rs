//! Packet kinds: the first byte of each payload received from the device.

use vstd::prelude::*;

verus! {

/// Response and push packet kinds.
///
/// Kinds below `0x80` answer a command; kinds from `0x80` are pushed by the
/// device unsolicited.
#[derive(Debug, Clone, Copy, PartialEq, Eq, Hash, Structural)]
pub enum PacketType {
    /// Command executed successfully.
    Success,
    /// Command failed with error.
    Error,
    /// Start of contact list.
    ContactStart,
    /// Contact data.
    Contact,
    /// End of contact list.
    ContactEnd,
    /// Self device information.
    SelfInfo,
    /// Message was sent (with ack code).
    MsgSent,
    /// Received a contact message.
    ContactMsgRecv,
    /// Received a channel message.
    ChannelMsgRecv,
    /// Current device time.
    CurrentTime,
    /// No more messages available.
    NoMoreMsgs,
    /// Contact URI/share data.
    ContactUri,
    /// Battery status.
    Battery,
    /// Device information.
    DeviceInfo,
    /// Private key export.
    PrivateKey,
    /// Feature is disabled.
    Disabled,
    /// Contact message with SNR/RSSI (v3).
    ContactMsgRecvV3,
    /// Channel message with SNR/RSSI (v3).
    ChannelMsgRecvV3,
    /// Channel information.
    ChannelInfo,
    /// Signature start.
    SignStart,
    /// Signature data.
    Signature,
    /// Custom variables.
    CustomVars,
    /// Statistics response.
    Stats,
    /// Binary request response.
    BinaryReq,
    /// Factory reset.
    FactoryReset,
    /// Path discovery.
    PathDiscovery,
    /// Set flood scope.
    SetFloodScope,
    /// Send control data.
    SendControlData,
    /// Advertisement from another device.
    Advertisement,
    /// Path update notification.
    PathUpdate,
    /// Acknowledgment received.
    Ack,
    /// Messages are waiting.
    MessagesWaiting,
    /// Raw data received.
    RawData,
    /// Login successful.
    LoginSuccess,
    /// Login failed.
    LoginFailed,
    /// Status response.
    StatusResponse,
    /// Log data.
    LogData,
    /// Trace data.
    TraceData,
    /// New advertisement push.
    PushNewAdvert,
    /// Telemetry response.
    TelemetryResponse,
    /// Binary response.
    BinaryResponse,
    /// Path discovery response.
    PathDiscoveryResponse,
    /// Control data.
    ControlData,
}

/// The wire byte of each packet kind.
pub open spec fn packet_code(p: PacketType) -> u8 {
    match p {
        PacketType::Success => 0x00u8,
        PacketType::Error => 0x01u8,
        PacketType::ContactStart => 0x02u8,
        PacketType::Contact => 0x03u8,
        PacketType::ContactEnd => 0x04u8,
        PacketType::SelfInfo => 0x05u8,
        PacketType::MsgSent => 0x06u8,
        PacketType::ContactMsgRecv => 0x07u8,
        PacketType::ChannelMsgRecv => 0x08u8,
        PacketType::CurrentTime => 0x09u8,
        PacketType::NoMoreMsgs => 0x0Au8,
        PacketType::ContactUri => 0x0Bu8,
        PacketType::Battery => 0x0Cu8,
        PacketType::DeviceInfo => 0x0Du8,
        PacketType::PrivateKey => 0x0Eu8,
        PacketType::Disabled => 0x0Fu8,
        PacketType::ContactMsgRecvV3 => 0x10u8,
        PacketType::ChannelMsgRecvV3 => 0x11u8,
        PacketType::ChannelInfo => 0x12u8,
        PacketType::SignStart => 0x13u8,
        PacketType::Signature => 0x14u8,
        PacketType::CustomVars => 0x15u8,
        PacketType::Stats => 0x18u8,
        PacketType::BinaryReq => 0x32u8,
        PacketType::FactoryReset => 0x33u8,
        PacketType::PathDiscovery => 0x34u8,
        PacketType::SetFloodScope => 0x36u8,
        PacketType::SendControlData => 0x37u8,
        PacketType::Advertisement => 0x80u8,
        PacketType::PathUpdate => 0x81u8,
        PacketType::Ack => 0x82u8,
        PacketType::MessagesWaiting => 0x83u8,
        PacketType::RawData => 0x84u8,
        PacketType::LoginSuccess => 0x85u8,
        PacketType::LoginFailed => 0x86u8,
        PacketType::StatusResponse => 0x87u8,
        PacketType::LogData => 0x88u8,
        PacketType::TraceData => 0x89u8,
        PacketType::PushNewAdvert => 0x8Au8,
        PacketType::TelemetryResponse => 0x8Bu8,
        PacketType::BinaryResponse => 0x8Cu8,
        PacketType::PathDiscoveryResponse => 0x8Du8,
        PacketType::ControlData => 0x8Eu8,
    }
}

impl PacketType {
    /// The packet kind that byte `byte` selects, if any.
    pub fn from_byte(byte: u8) -> (r: Option<Self>)
        ensures
            match r {
                Some(p) => packet_code(p) == byte,
                None => forall|p: PacketType| packet_code(p) != byte,
            },
    {
        match byte {
            0x00 => Some(PacketType::Success),
            0x01 => Some(PacketType::Error),
            0x02 => Some(PacketType::ContactStart),
            0x03 => Some(PacketType::Contact),
            0x04 => Some(PacketType::ContactEnd),
            0x05 => Some(PacketType::SelfInfo),
            0x06 => Some(PacketType::MsgSent),
            0x07 => Some(PacketType::ContactMsgRecv),
            0x08 => Some(PacketType::ChannelMsgRecv),
            0x09 => Some(PacketType::CurrentTime),
            0x0A => Some(PacketType::NoMoreMsgs),
            0x0B => Some(PacketType::ContactUri),
            0x0C => Some(PacketType::Battery),
            0x0D => Some(PacketType::DeviceInfo),
            0x0E => Some(PacketType::PrivateKey),
            0x0F => Some(PacketType::Disabled),
            0x10 => Some(PacketType::ContactMsgRecvV3),
            0x11 => Some(PacketType::ChannelMsgRecvV3),
            0x12 => Some(PacketType::ChannelInfo),
            0x13 => Some(PacketType::SignStart),
            0x14 => Some(PacketType::Signature),
            0x15 => Some(PacketType::CustomVars),
            0x18 => Some(PacketType::Stats),
            0x32 => Some(PacketType::BinaryReq),
            0x33 => Some(PacketType::FactoryReset),
            0x34 => Some(PacketType::PathDiscovery),
            0x36 => Some(PacketType::SetFloodScope),
            0x37 => Some(PacketType::SendControlData),
            0x80 => Some(PacketType::Advertisement),
            0x81 => Some(PacketType::PathUpdate),
            0x82 => Some(PacketType::Ack),
            0x83 => Some(PacketType::MessagesWaiting),
            0x84 => Some(PacketType::RawData),
            0x85 => Some(PacketType::LoginSuccess),
            0x86 => Some(PacketType::LoginFailed),
            0x87 => Some(PacketType::StatusResponse),
            0x88 => Some(PacketType::LogData),
            0x89 => Some(PacketType::TraceData),
            0x8A => Some(PacketType::PushNewAdvert),
            0x8B => Some(PacketType::TelemetryResponse),
            0x8C => Some(PacketType::BinaryResponse),
            0x8D => Some(PacketType::PathDiscoveryResponse),
            0x8E => Some(PacketType::ControlData),
            _ => None,
        }
    }

    /// The wire byte of this packet kind.
    pub fn to_byte(&self) -> (r: u8)
        ensures
            r == packet_code(*self),
    {
        match self {
            PacketType::Success => 0x00,
            PacketType::Error => 0x01,
            PacketType::ContactStart => 0x02,
            PacketType::Contact => 0x03,
            PacketType::ContactEnd => 0x04,
            PacketType::SelfInfo => 0x05,
            PacketType::MsgSent => 0x06,
            PacketType::ContactMsgRecv => 0x07,
            PacketType::ChannelMsgRecv => 0x08,
            PacketType::CurrentTime => 0x09,
            PacketType::NoMoreMsgs => 0x0A,
            PacketType::ContactUri => 0x0B,
            PacketType::Battery => 0x0C,
            PacketType::DeviceInfo => 0x0D,
            PacketType::PrivateKey => 0x0E,
            PacketType::Disabled => 0x0F,
            PacketType::ContactMsgRecvV3 => 0x10,
            PacketType::ChannelMsgRecvV3 => 0x11,
            PacketType::ChannelInfo => 0x12,
            PacketType::SignStart => 0x13,
            PacketType::Signature => 0x14,
            PacketType::CustomVars => 0x15,
            PacketType::Stats => 0x18,
            PacketType::BinaryReq => 0x32,
            PacketType::FactoryReset => 0x33,
            PacketType::PathDiscovery => 0x34,
            PacketType::SetFloodScope => 0x36,
            PacketType::SendControlData => 0x37,
            PacketType::Advertisement => 0x80,
            PacketType::PathUpdate => 0x81,
            PacketType::Ack => 0x82,
            PacketType::MessagesWaiting => 0x83,
            PacketType::RawData => 0x84,
            PacketType::LoginSuccess => 0x85,
            PacketType::LoginFailed => 0x86,
            PacketType::StatusResponse => 0x87,
            PacketType::LogData => 0x88,
            PacketType::TraceData => 0x89,
            PacketType::PushNewAdvert => 0x8A,
            PacketType::TelemetryResponse => 0x8B,
            PacketType::BinaryResponse => 0x8C,
            PacketType::PathDiscoveryResponse => 0x8D,
            PacketType::ControlData => 0x8E,
        }
    }

    /// Whether this kind is pushed by the device unsolicited.
    pub fn is_push(&self) -> (r: bool)
        ensures
            r == (packet_code(*self) >= 0x80),
    {
        self.to_byte() >= 0x80
    }

    /// Whether this kind answers a command.
    pub fn is_response(&self) -> (r: bool)
        ensures
            r == (packet_code(*self) < 0x80),
    {
        !self.is_push()
    }
}

impl From<PacketType> for u8 {
    fn from(p: PacketType) -> (r: u8) {
        p.to_byte()
    }
}

impl vstd::std_specs::convert::FromSpecImpl<PacketType> for u8 {
    open spec fn obeys_from_spec() -> bool {
        true
    }

    open spec fn from_spec(p: PacketType) -> u8 {
        packet_code(p)
    }
}

/// Distinct packet kinds have distinct wire bytes, and each kind's byte
/// selects that kind again.
pub proof fn law_packet_code_round_trip(p: PacketType, q: PacketType)
    ensures
        packet_code(p) == packet_code(q) ==> p == q,
{
}

} // verus!
