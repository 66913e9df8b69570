//! Command opcodes and sub-type bytes sent to the device.
//!
//! Each command is an opcode byte followed by a command-specific body.

use vstd::prelude::*;

verus! {

/// Opcodes of the commands sent to the device.
#[derive(Debug, Clone, Copy, PartialEq, Eq, Hash, Structural)]
pub enum CommandOpcode {
    /// Initialize connection, returns `SelfInfo`.
    AppStart,
    /// Send a private message (followed by subtype).
    SendMessage,
    /// Send a channel message.
    SendChannelMsg,
    /// Get contact list.
    GetContacts,
    /// Get current device time.
    GetTime,
    /// Set device time.
    SetTime,
    /// Send advertisement.
    SendAdvert,
    /// Set device name.
    SetName,
    /// Update contact.
    UpdateContact,
    /// Get next waiting message.
    GetMessage,
    /// Set radio parameters.
    SetRadio,
    /// Set TX power.
    SetTxPower,
    /// Reset path for a contact.
    ResetPath,
    /// Set device coordinates.
    SetCoords,
    /// Remove a contact.
    RemoveContact,
    /// Share contact (generate URI).
    ShareContact,
    /// Export contact.
    ExportContact,
    /// Import contact.
    ImportContact,
    /// Reboot device.
    Reboot,
    /// Get battery status.
    GetBattery,
    /// Set tuning parameters.
    SetTuning,
    /// Query device info.
    DeviceQuery,
    /// Export private key.
    ExportPrivateKey,
    /// Import private key.
    ImportPrivateKey,
    /// Send login request.
    SendLogin,
    /// Send status request.
    SendStatusReq,
    /// Send logout.
    SendLogout,
    /// Get channel info.
    GetChannel,
    /// Set channel.
    SetChannel,
    /// Start signature.
    SignStart,
    /// Sign data chunk.
    SignData,
    /// Finish signature.
    SignFinish,
    /// Send trace path request.
    SendTrace,
    /// Set device PIN.
    SetDevicePin,
    /// Set other parameters (`manual_add`, `telemetry_mode`, etc.).
    SetOtherParams,
    /// Get/send telemetry.
    Telemetry,
    /// Get custom variables.
    GetCustomVars,
    /// Set custom variable.
    SetCustomVar,
    /// Binary request.
    BinaryReq,
    /// Path discovery.
    PathDiscovery,
    /// Set flood scope.
    SetFloodScope,
    /// Send control data.
    SendControlData,
    /// Get statistics.
    GetStats,
}

/// The wire byte of each `CommandOpcode`.
pub open spec fn code_of_command_opcode(c: CommandOpcode) -> u8 {
    match c {
        CommandOpcode::AppStart => 0x01u8,
        CommandOpcode::SendMessage => 0x02u8,
        CommandOpcode::SendChannelMsg => 0x03u8,
        CommandOpcode::GetContacts => 0x04u8,
        CommandOpcode::GetTime => 0x05u8,
        CommandOpcode::SetTime => 0x06u8,
        CommandOpcode::SendAdvert => 0x07u8,
        CommandOpcode::SetName => 0x08u8,
        CommandOpcode::UpdateContact => 0x09u8,
        CommandOpcode::GetMessage => 0x0Au8,
        CommandOpcode::SetRadio => 0x0Bu8,
        CommandOpcode::SetTxPower => 0x0Cu8,
        CommandOpcode::ResetPath => 0x0Du8,
        CommandOpcode::SetCoords => 0x0Eu8,
        CommandOpcode::RemoveContact => 0x0Fu8,
        CommandOpcode::ShareContact => 0x10u8,
        CommandOpcode::ExportContact => 0x11u8,
        CommandOpcode::ImportContact => 0x12u8,
        CommandOpcode::Reboot => 0x13u8,
        CommandOpcode::GetBattery => 0x14u8,
        CommandOpcode::SetTuning => 0x15u8,
        CommandOpcode::DeviceQuery => 0x16u8,
        CommandOpcode::ExportPrivateKey => 0x17u8,
        CommandOpcode::ImportPrivateKey => 0x18u8,
        CommandOpcode::SendLogin => 0x1Au8,
        CommandOpcode::SendStatusReq => 0x1Bu8,
        CommandOpcode::SendLogout => 0x1Du8,
        CommandOpcode::GetChannel => 0x1Fu8,
        CommandOpcode::SetChannel => 0x20u8,
        CommandOpcode::SignStart => 0x21u8,
        CommandOpcode::SignData => 0x22u8,
        CommandOpcode::SignFinish => 0x23u8,
        CommandOpcode::SendTrace => 0x24u8,
        CommandOpcode::SetDevicePin => 0x25u8,
        CommandOpcode::SetOtherParams => 0x26u8,
        CommandOpcode::Telemetry => 0x27u8,
        CommandOpcode::GetCustomVars => 0x28u8,
        CommandOpcode::SetCustomVar => 0x29u8,
        CommandOpcode::BinaryReq => 0x32u8,
        CommandOpcode::PathDiscovery => 0x34u8,
        CommandOpcode::SetFloodScope => 0x36u8,
        CommandOpcode::SendControlData => 0x37u8,
        CommandOpcode::GetStats => 0x38u8,
    }
}

impl CommandOpcode {
    /// The wire byte.
    pub fn to_byte(&self) -> (r: u8)
        ensures
            r == code_of_command_opcode(*self),
    {
        match self {
            CommandOpcode::AppStart => 0x01,
            CommandOpcode::SendMessage => 0x02,
            CommandOpcode::SendChannelMsg => 0x03,
            CommandOpcode::GetContacts => 0x04,
            CommandOpcode::GetTime => 0x05,
            CommandOpcode::SetTime => 0x06,
            CommandOpcode::SendAdvert => 0x07,
            CommandOpcode::SetName => 0x08,
            CommandOpcode::UpdateContact => 0x09,
            CommandOpcode::GetMessage => 0x0A,
            CommandOpcode::SetRadio => 0x0B,
            CommandOpcode::SetTxPower => 0x0C,
            CommandOpcode::ResetPath => 0x0D,
            CommandOpcode::SetCoords => 0x0E,
            CommandOpcode::RemoveContact => 0x0F,
            CommandOpcode::ShareContact => 0x10,
            CommandOpcode::ExportContact => 0x11,
            CommandOpcode::ImportContact => 0x12,
            CommandOpcode::Reboot => 0x13,
            CommandOpcode::GetBattery => 0x14,
            CommandOpcode::SetTuning => 0x15,
            CommandOpcode::DeviceQuery => 0x16,
            CommandOpcode::ExportPrivateKey => 0x17,
            CommandOpcode::ImportPrivateKey => 0x18,
            CommandOpcode::SendLogin => 0x1A,
            CommandOpcode::SendStatusReq => 0x1B,
            CommandOpcode::SendLogout => 0x1D,
            CommandOpcode::GetChannel => 0x1F,
            CommandOpcode::SetChannel => 0x20,
            CommandOpcode::SignStart => 0x21,
            CommandOpcode::SignData => 0x22,
            CommandOpcode::SignFinish => 0x23,
            CommandOpcode::SendTrace => 0x24,
            CommandOpcode::SetDevicePin => 0x25,
            CommandOpcode::SetOtherParams => 0x26,
            CommandOpcode::Telemetry => 0x27,
            CommandOpcode::GetCustomVars => 0x28,
            CommandOpcode::SetCustomVar => 0x29,
            CommandOpcode::BinaryReq => 0x32,
            CommandOpcode::PathDiscovery => 0x34,
            CommandOpcode::SetFloodScope => 0x36,
            CommandOpcode::SendControlData => 0x37,
            CommandOpcode::GetStats => 0x38,
        }
    }
}

impl From<CommandOpcode> for u8 {
    fn from(c: CommandOpcode) -> (r: u8) {
        c.to_byte()
    }
}

impl vstd::std_specs::convert::FromSpecImpl<CommandOpcode> for u8 {
    open spec fn obeys_from_spec() -> bool {
        true
    }

    open spec fn from_spec(c: CommandOpcode) -> u8 {
        code_of_command_opcode(c)
    }
}

/// Sub-types of the `SendMessage` command.
#[derive(Debug, Clone, Copy, PartialEq, Eq, Hash, Structural)]
pub enum MessageType {
    /// Private message to a contact.
    Private,
    /// Command to a contact.
    Command,
}

/// The wire byte of each `MessageType`.
pub open spec fn code_of_message_type(c: MessageType) -> u8 {
    match c {
        MessageType::Private => 0x00u8,
        MessageType::Command => 0x01u8,
    }
}

impl MessageType {
    /// The wire byte.
    pub fn to_byte(&self) -> (r: u8)
        ensures
            r == code_of_message_type(*self),
    {
        match self {
            MessageType::Private => 0x00,
            MessageType::Command => 0x01,
        }
    }
}

impl From<MessageType> for u8 {
    fn from(c: MessageType) -> (r: u8) {
        c.to_byte()
    }
}

impl vstd::std_specs::convert::FromSpecImpl<MessageType> for u8 {
    open spec fn obeys_from_spec() -> bool {
        true
    }

    open spec fn from_spec(c: MessageType) -> u8 {
        code_of_message_type(c)
    }
}

/// Kinds of binary request sent to a remote node.
#[derive(Debug, Clone, Copy, PartialEq, Eq, Hash, Structural)]
pub enum BinaryReqType {
    /// Request device status.
    Status,
    /// Keep-alive ping/heartbeat.
    KeepAlive,
    /// Request telemetry data (Cayenne LPP format).
    Telemetry,
    /// Request min/max/avg measurements.
    Mma,
    /// Request access control list.
    Acl,
    /// Request neighbours list.
    Neighbours,
}

/// The wire byte of each `BinaryReqType`.
pub open spec fn code_of_binary_req_type(c: BinaryReqType) -> u8 {
    match c {
        BinaryReqType::Status => 0x01u8,
        BinaryReqType::KeepAlive => 0x02u8,
        BinaryReqType::Telemetry => 0x03u8,
        BinaryReqType::Mma => 0x04u8,
        BinaryReqType::Acl => 0x05u8,
        BinaryReqType::Neighbours => 0x06u8,
    }
}

impl BinaryReqType {
    /// The wire byte.
    pub fn to_byte(&self) -> (r: u8)
        ensures
            r == code_of_binary_req_type(*self),
    {
        match self {
            BinaryReqType::Status => 0x01,
            BinaryReqType::KeepAlive => 0x02,
            BinaryReqType::Telemetry => 0x03,
            BinaryReqType::Mma => 0x04,
            BinaryReqType::Acl => 0x05,
            BinaryReqType::Neighbours => 0x06,
        }
    }

    /// Whether a request of this kind is answered; a keep-alive is not.
    pub fn expects_response(&self) -> (r: bool)
        ensures
            r == !(*self is KeepAlive),
    {
        !matches!(self, BinaryReqType::KeepAlive)
    }
}

impl From<BinaryReqType> for u8 {
    fn from(c: BinaryReqType) -> (r: u8) {
        c.to_byte()
    }
}

impl vstd::std_specs::convert::FromSpecImpl<BinaryReqType> for u8 {
    open spec fn obeys_from_spec() -> bool {
        true
    }

    open spec fn from_spec(c: BinaryReqType) -> u8 {
        code_of_binary_req_type(c)
    }
}

/// Statistics groups that `GetStats` can ask for.
#[derive(Debug, Clone, Copy, PartialEq, Eq, Hash, Structural)]
pub enum StatsType {
    /// Core statistics (battery, uptime, errors, queue).
    Core,
    /// Radio statistics (noise floor, RSSI, airtime).
    Radio,
    /// Packet statistics (sent/received counts).
    Packets,
}

/// The wire byte of each `StatsType`.
pub open spec fn code_of_stats_type(c: StatsType) -> u8 {
    match c {
        StatsType::Core => 0x00u8,
        StatsType::Radio => 0x01u8,
        StatsType::Packets => 0x02u8,
    }
}

impl StatsType {
    /// The wire byte.
    pub fn to_byte(&self) -> (r: u8)
        ensures
            r == code_of_stats_type(*self),
    {
        match self {
            StatsType::Core => 0x00,
            StatsType::Radio => 0x01,
            StatsType::Packets => 0x02,
        }
    }
}

impl From<StatsType> for u8 {
    fn from(c: StatsType) -> (r: u8) {
        c.to_byte()
    }
}

impl vstd::std_specs::convert::FromSpecImpl<StatsType> for u8 {
    open spec fn obeys_from_spec() -> bool {
        true
    }

    open spec fn from_spec(c: StatsType) -> u8 {
        code_of_stats_type(c)
    }
}

/// Kinds of control data sent to the mesh.
#[derive(Debug, Clone, Copy, PartialEq, Eq, Hash, Structural)]
pub enum ControlDataType {
    /// Node discovery request.
    NodeDiscoverReq,
}

/// The wire byte of each `ControlDataType`.
pub open spec fn code_of_control_data_type(c: ControlDataType) -> u8 {
    match c {
        ControlDataType::NodeDiscoverReq => 0x80u8,
    }
}

impl ControlDataType {
    /// The wire byte.
    pub fn to_byte(&self) -> (r: u8)
        ensures
            r == code_of_control_data_type(*self),
    {
        match self {
            ControlDataType::NodeDiscoverReq => 0x80,
        }
    }
}

impl From<ControlDataType> for u8 {
    fn from(c: ControlDataType) -> (r: u8) {
        c.to_byte()
    }
}

impl vstd::std_specs::convert::FromSpecImpl<ControlDataType> for u8 {
    open spec fn obeys_from_spec() -> bool {
        true
    }

    open spec fn from_spec(c: ControlDataType) -> u8 {
        code_of_control_data_type(c)
    }
}

} // verus!
