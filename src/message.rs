//! Received messages and acknowledgements.

use vstd::prelude::*;

use crate::scaled::Scaled;

verus! {

/// Kind of a message's text.
#[derive(Debug, Clone, Copy, PartialEq, Eq, Default, Structural)]
pub enum TextType {
    /// Plain text.
    #[default]
    Plain,
    /// A command for the receiving device.
    Command,
    /// Signed text, preceded by a signature.
    Signed,
}

/// The text kind that a byte names; unknown bytes give `Plain`.
pub open spec fn text_type_of(byte: u8) -> TextType {
    if byte == 1 {
        TextType::Command
    } else if byte == 2 {
        TextType::Signed
    } else {
        TextType::Plain
    }
}

impl TextType {
    /// The text kind that a byte names.
    pub fn from_byte(byte: u8) -> (r: Self)
        ensures
            r == text_type_of(byte),
    {
        match byte {
            1 => TextType::Command,
            2 => TextType::Signed,
            _ => TextType::Plain,
        }
    }
}

/// Signal quality reported with newer-generation messages.
#[derive(Debug, Clone, Copy, PartialEq, Eq, Structural)]
pub struct SignalQuality {
    /// Signal-to-noise ratio in dB, sent in quarters.
    pub snr: Scaled,
}

/// A private message from a contact.
#[derive(Debug, Clone)]
pub struct ContactMessage {
    /// First six bytes of the sender's public key.
    pub sender_prefix: [u8; 6],
    /// Path length.
    pub path_len: i8,
    /// Text kind.
    pub text_type: TextType,
    /// Sender's timestamp (Unix seconds).
    pub timestamp: u32,
    /// Detached signature of signed text.
    pub signature: Option<Vec<u8>>,
    /// Message text.
    pub text: String,
    /// Signal quality, in the newer generation only.
    pub signal: Option<SignalQuality>,
}

/// A message on a group channel.
#[derive(Debug, Clone)]
pub struct ChannelMessage {
    /// Channel index.
    pub channel_index: u8,
    /// Path length.
    pub path_len: i8,
    /// Text kind.
    pub text_type: TextType,
    /// Sender's timestamp (Unix seconds).
    pub timestamp: u32,
    /// Message text.
    pub text: String,
    /// Signal quality, in the newer generation only.
    pub signal: Option<SignalQuality>,
}

/// Acknowledgement of a sent message or request.
#[derive(Debug, Clone, Copy, PartialEq, Eq, Structural)]
pub struct Acknowledgment {
    /// Correlation code, equal to the one announced when the message was sent.
    pub code: u32,
}

} // verus!
