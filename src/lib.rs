//! Client-side protocol engine for a length-framed binary protocol spoken by
//! mesh-radio devices over a serial byte stream.
//!
//! The library frames and unframes byte streams ([`frame`]), classifies and
//! decodes the device's packets into a typed event model ([`classify`],
//! [`parser`], [`telemetry`], [`event`]), encodes outbound commands and
//! interprets their answers ([`commands`], [`responses`]), broadcasts events
//! to subscribers with explicit lag signalling ([`hub`]), and keeps a small
//! cache of device state consistent with what was observed ([`state`]).

pub mod classify;
pub mod clock;
pub mod command;
pub mod commands;
pub mod contact;
pub mod device;
pub mod error;
pub mod event;
pub mod frame;
pub mod hub;
pub mod message;
pub mod packet;
pub mod parser;
pub mod responses;
pub mod scaled;
pub mod state;
pub mod stats;
pub mod telemetry;
pub mod text;
pub mod transport;
pub mod wire;

pub use command::{BinaryReqType, CommandOpcode, ControlDataType, MessageType, StatsType};
pub use commands::ContactUpdateParams;
pub use contact::{Contact, ContactFlags, ContactType, PublicKey};
pub use device::{BatteryStatus, Channel, DeviceInfo, RadioConfig, SelfInfo, TelemetryMode};
pub use error::{Error, FrameError};
pub use event::{Event, EventFilter, StatsData};
pub use frame::FrameDecoder;
pub use hub::{EventDispatcher, Received, Subscription};
pub use message::{Acknowledgment, ChannelMessage, ContactMessage, SignalQuality, TextType};
pub use packet::PacketType;
pub use scaled::Scaled;
pub use stats::{CoreStats, DeviceStatus, PacketStats, RadioStats};
pub use telemetry::{Telemetry, TelemetryReading, TelemetryValue};
pub use transport::SerialConfig;
