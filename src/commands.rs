//! Outbound commands: the exact payload of each, and how its answer is
//! awaited.
//!
//! A command is an opcode byte and a command-specific body. Its answer is
//! awaited in one of two ways: wait for the next event of one of a set of
//! packet kinds (the device's error packet always among them), or send and
//! let the device settle, for settings whose acknowledgement is unreliable.
//! Commands that start later work on the device (messages, remote requests)
//! are answered at once with an acknowledgement code; the real result comes
//! later as an acknowledgement push carrying that code.

use sha2::Digest;
use vstd::prelude::*;

use crate::command::{code_of_binary_req_type, code_of_stats_type, BinaryReqType, StatsType};
use crate::contact::PublicKey;
use crate::error::Error;
use crate::packet::PacketType;
use crate::wire::{
    le_bytes_i32, le_bytes_u16, le_bytes_u32, padded, push_all, push_i32_le, push_padded,
    push_u16_le, push_u32_le,
};
use vstd::string::StringSliceAdditionalSpecFns;
use vstd::utf8::encode_utf8;

verus! {

/// How the answer to a command is awaited.
#[derive(Debug, Clone)]
pub enum Reply {
    /// Wait for the next event of one of these packet kinds.
    Shapes(Vec<PacketType>),
    /// Send, then wait a short fixed delay; the caller checks the effect.
    Settle,
}

/// A command ready to send.
#[derive(Debug, Clone)]
pub struct Request {
    /// The command's payload, before framing.
    pub payload: Vec<u8>,
    /// How its answer is awaited.
    pub reply: Reply,
}

/// Whether `r` waits for exactly the packet kinds `ks`.
pub open spec fn awaits(r: Reply, ks: Seq<PacketType>) -> bool {
    r matches Reply::Shapes(v) && v@ == ks
}

fn shapes2(a: PacketType, b: PacketType) -> (r: Reply)
    ensures
        awaits(r, seq![a, b]),
{
    let v = vec![a, b];
    assert(v@ =~= seq![a, b]);
    Reply::Shapes(v)
}

fn request(payload: Vec<u8>, reply: Reply) -> (r: Request)
    ensures
        r.payload@ == payload@,
        r.reply == reply,
{
    Request { payload, reply }
}

/// The maximum latitude, in millionths of a degree.
pub const MAX_LATITUDE_MICRO: i32 = 90_000_000;

/// The maximum longitude, in millionths of a degree.
pub const MAX_LONGITUDE_MICRO: i32 = 180_000_000;

/// Whether a latitude and longitude in millionths of a degree are in range.
pub open spec fn coords_valid(lat: i32, lon: i32) -> bool {
    -MAX_LATITUDE_MICRO <= lat <= MAX_LATITUDE_MICRO && -MAX_LONGITUDE_MICRO <= lon
        <= MAX_LONGITUDE_MICRO
}

/// Parameters of a contact update.
#[derive(Debug, Clone)]
pub struct ContactUpdateParams {
    /// The contact's public key.
    pub public_key: PublicKey,
    /// Contact class byte.
    pub contact_type: u8,
    /// Flag bits.
    pub flags: u8,
    /// Path length; negative for flood routing.
    pub path_len: i8,
    /// Path: repeater key prefixes; cut to 64 bytes.
    pub path: Vec<u8>,
    /// Name; cut to 32 bytes.
    pub name: String,
    /// Last advertisement (Unix seconds).
    pub last_advert: u32,
    /// Latitude in millionths of a degree, if set.
    pub latitude: Option<i32>,
    /// Longitude in millionths of a degree, if set.
    pub longitude: Option<i32>,
}

/// A coordinate in millionths of a degree, with zero for "not set".
pub open spec fn coord_or_zero(c: Option<i32>) -> i32 {
    match c {
        Some(v) => v,
        None => 0,
    }
}

/// Name of the SHA-256 digest of a byte sequence.
pub uninterp spec fn sha256_of(b: Seq<u8>) -> Seq<u8>;

/// Relies on `sha2::Sha256`: the 32-byte SHA-256 digest of the input.
#[verifier::external_body]
fn sha256(b: &[u8]) -> (r: Vec<u8>)
    ensures
        r@ == sha256_of(b@),
        r@.len() == 32,
{
    sha2::Sha256::digest(b).to_vec()
}

/// Starts the session; answered by the device's self-description.
pub fn app_start() -> (r: Request)
    ensures
        r.payload@ == seq![0x01u8, 0x03, 0x20, 0x20, 0x20, 0x20, 0x20, 0x20, 0x6d, 0x63, 0x63, 0x6c, 0x69],
        awaits(r.reply, seq![PacketType::SelfInfo, PacketType::Error]),
{
    let mut p: Vec<u8> = Vec::new();
    let lit: [u8; 13] = [0x01u8, 0x03, 0x20, 0x20, 0x20, 0x20, 0x20, 0x20, 0x6d, 0x63, 0x63, 0x6c, 0x69];
    push_all(&mut p, lit.as_slice());
    assert(p@ =~= seq![0x01u8, 0x03, 0x20, 0x20, 0x20, 0x20, 0x20, 0x20, 0x6d, 0x63, 0x63, 0x6c, 0x69]);
    request(p, shapes2(PacketType::SelfInfo, PacketType::Error))
}

/// Asks for the device's clock.
pub fn get_time() -> (r: Request)
    ensures
        r.payload@ == seq![0x05u8],
        awaits(r.reply, seq![PacketType::CurrentTime, PacketType::Error]),
{
    let mut p: Vec<u8> = Vec::new();
    p.push(0x05);
    assert(p@ =~= seq![0x05u8]);
    request(p, shapes2(PacketType::CurrentTime, PacketType::Error))
}

/// Sets the device's clock (Unix seconds).
pub fn set_time(timestamp: u32) -> (r: Request)
    ensures
        r.payload@ == seq![0x06u8] + le_bytes_u32(timestamp),
        r.reply is Settle,
{
    let mut p: Vec<u8> = Vec::new();
    p.push(0x06);
    push_u32_le(&mut p, timestamp);
    assert(p@ =~= seq![0x06u8] + le_bytes_u32(timestamp));
    request(p, Reply::Settle)
}

/// Asks for the battery status.
pub fn get_battery() -> (r: Request)
    ensures
        r.payload@ == seq![0x14u8],
        awaits(r.reply, seq![PacketType::Battery, PacketType::Error]),
{
    let mut p: Vec<u8> = Vec::new();
    p.push(0x14);
    assert(p@ =~= seq![0x14u8]);
    request(p, shapes2(PacketType::Battery, PacketType::Error))
}

/// Asks for the full device description.
pub fn device_query() -> (r: Request)
    ensures
        r.payload@ == seq![0x16u8] + seq![0x03u8],
        awaits(r.reply, seq![PacketType::DeviceInfo, PacketType::Error]),
{
    let mut p: Vec<u8> = Vec::new();
    p.push(0x16);
    p.push(0x03);
    assert(p@ =~= seq![0x16u8] + seq![0x03u8]);
    request(p, shapes2(PacketType::DeviceInfo, PacketType::Error))
}

/// Sets the device name.
pub fn set_name(name: &str) -> (r: Request)
    ensures
        r.payload@ == seq![0x08u8] + name.spec_bytes(),
        r.reply is Settle,
{
    let mut p: Vec<u8> = Vec::new();
    p.push(0x08);
    push_all(&mut p, name.as_bytes());
    assert(p@ =~= seq![0x08u8] + name.spec_bytes());
    request(p, Reply::Settle)
}

/// Sets the transmit power (dBm).
pub fn set_tx_power(power: i32) -> (r: Request)
    ensures
        r.payload@ == seq![0x0Cu8] + le_bytes_i32(power),
        r.reply is Settle,
{
    let mut p: Vec<u8> = Vec::new();
    p.push(0x0C);
    push_i32_le(&mut p, power);
    assert(p@ =~= seq![0x0Cu8] + le_bytes_i32(power));
    request(p, Reply::Settle)
}

/// Sets the radio: frequency in kHz, bandwidth in Hz, spreading factor and coding rate.
pub fn set_radio(freq_khz: u32, bw_hz: u32, sf: u8, cr: u8) -> (r: Request)
    ensures
        r.payload@ == seq![0x0Bu8] + le_bytes_u32(freq_khz) + le_bytes_u32(bw_hz) + seq![sf] + seq![cr],
        r.reply is Settle,
{
    let mut p: Vec<u8> = Vec::new();
    p.push(0x0B);
    push_u32_le(&mut p, freq_khz);
    push_u32_le(&mut p, bw_hz);
    p.push(sf);
    p.push(cr);
    assert(p@ =~= seq![0x0Bu8] + le_bytes_u32(freq_khz) + le_bytes_u32(bw_hz) + seq![sf] + seq![cr]);
    request(p, Reply::Settle)
}

/// Sets the receive delay and airtime factor.
pub fn set_tuning(rx_delay: i32, af: i32) -> (r: Request)
    ensures
        r.payload@ == seq![0x15u8] + le_bytes_i32(rx_delay) + le_bytes_i32(af) + seq![0u8] + seq![0u8],
        r.reply is Settle,
{
    let mut p: Vec<u8> = Vec::new();
    p.push(0x15);
    push_i32_le(&mut p, rx_delay);
    push_i32_le(&mut p, af);
    p.push(0);
    p.push(0);
    assert(p@ =~= seq![0x15u8] + le_bytes_i32(rx_delay) + le_bytes_i32(af) + seq![0u8] + seq![0u8]);
    request(p, Reply::Settle)
}

/// Sets the Bluetooth pairing PIN.
pub fn set_device_pin(pin: u32) -> (r: Request)
    ensures
        r.payload@ == seq![0x25u8] + le_bytes_u32(pin),
        r.reply is Settle,
{
    let mut p: Vec<u8> = Vec::new();
    p.push(0x25);
    push_u32_le(&mut p, pin);
    assert(p@ =~= seq![0x25u8] + le_bytes_u32(pin));
    request(p, Reply::Settle)
}

/// Sets contact approval, telemetry modes, location policy and multi-acks.
pub fn set_other_params(manual_add_contacts: bool, telemetry_mode: u8, advert_loc_policy: u8, multi_acks: u8) -> (r: Request)
    ensures
        r.payload@ == seq![0x26u8] + seq![(if manual_add_contacts { 1u8 } else { 0u8 })] + seq![telemetry_mode] + seq![advert_loc_policy] + seq![multi_acks],
        r.reply is Settle,
{
    let mut p: Vec<u8> = Vec::new();
    p.push(0x26);
    p.push(if manual_add_contacts { 1u8 } else { 0u8 });
    p.push(telemetry_mode);
    p.push(advert_loc_policy);
    p.push(multi_acks);
    assert(p@ =~= seq![0x26u8] + seq![(if manual_add_contacts { 1u8 } else { 0u8 })] + seq![telemetry_mode] + seq![advert_loc_policy] + seq![multi_acks]);
    request(p, Reply::Settle)
}

/// Reboots the device; the word "reboot" guards against accidents.
pub fn reboot() -> (r: Request)
    ensures
        r.payload@ == seq![0x13u8, 0x72, 0x65, 0x62, 0x6f, 0x6f, 0x74],
        awaits(r.reply, seq![PacketType::Success, PacketType::Error]),
{
    let mut p: Vec<u8> = Vec::new();
    let lit: [u8; 7] = [0x13u8, 0x72, 0x65, 0x62, 0x6f, 0x6f, 0x74];
    push_all(&mut p, lit.as_slice());
    assert(p@ =~= seq![0x13u8, 0x72, 0x65, 0x62, 0x6f, 0x6f, 0x74]);
    request(p, shapes2(PacketType::Success, PacketType::Error))
}

/// Asks for the device's private key.
pub fn export_private_key() -> (r: Request)
    ensures
        r.payload@ == seq![0x17u8],
        awaits(r.reply, seq![PacketType::PrivateKey, PacketType::Error, PacketType::Disabled]),
{
    let mut p: Vec<u8> = Vec::new();
    p.push(0x17);
    assert(p@ =~= seq![0x17u8]);
    let kinds = vec![PacketType::PrivateKey, PacketType::Error, PacketType::Disabled];
    assert(kinds@ =~= seq![PacketType::PrivateKey, PacketType::Error, PacketType::Disabled]);
    request(p, Reply::Shapes(kinds))
}

/// Replaces the device's private key.
pub fn import_private_key(key: &[u8; 32]) -> (r: Request)
    ensures
        r.payload@ == seq![0x18u8] + key@,
        awaits(r.reply, seq![PacketType::Success, PacketType::Error]),
{
    let mut p: Vec<u8> = Vec::new();
    p.push(0x18);
    push_all(&mut p, key.as_slice());
    assert(p@ =~= seq![0x18u8] + key@);
    request(p, shapes2(PacketType::Success, PacketType::Error))
}

/// Asks for one group of statistics.
pub fn get_stats(stats_type: StatsType) -> (r: Request)
    ensures
        r.payload@ == seq![0x38u8] + seq![code_of_stats_type(stats_type)],
        awaits(r.reply, seq![PacketType::Stats, PacketType::Error]),
{
    let mut p: Vec<u8> = Vec::new();
    p.push(0x38);
    p.push(stats_type.to_byte());
    assert(p@ =~= seq![0x38u8] + seq![code_of_stats_type(stats_type)]);
    request(p, shapes2(PacketType::Stats, PacketType::Error))
}

/// Asks for the custom variables.
pub fn get_custom_vars() -> (r: Request)
    ensures
        r.payload@ == seq![0x28u8],
        awaits(r.reply, seq![PacketType::CustomVars, PacketType::Error]),
{
    let mut p: Vec<u8> = Vec::new();
    p.push(0x28);
    assert(p@ =~= seq![0x28u8]);
    request(p, shapes2(PacketType::CustomVars, PacketType::Error))
}

/// Sets a custom variable as `key:value`.
pub fn set_custom_var(key: &str, value: &str) -> (r: Request)
    ensures
        r.payload@ == seq![0x29u8] + key.spec_bytes() + seq![0x3au8] + value.spec_bytes(),
        r.reply is Settle,
{
    let mut p: Vec<u8> = Vec::new();
    p.push(0x29);
    push_all(&mut p, key.as_bytes());
    p.push(0x3a);
    push_all(&mut p, value.as_bytes());
    assert(p@ =~= seq![0x29u8] + key.spec_bytes() + seq![0x3au8] + value.spec_bytes());
    request(p, Reply::Settle)
}

/// Removes a contact from the device.
pub fn remove_contact(public_key: &PublicKey) -> (r: Request)
    ensures
        r.payload@ == seq![0x0Fu8] + public_key@,
        awaits(r.reply, seq![PacketType::Success, PacketType::Error]),
{
    let mut p: Vec<u8> = Vec::new();
    p.push(0x0F);
    push_all(&mut p, public_key.as_bytes());
    assert(p@ =~= seq![0x0Fu8] + public_key@);
    request(p, shapes2(PacketType::Success, PacketType::Error))
}

/// Forgets a contact's route.
pub fn reset_path(public_key: &PublicKey) -> (r: Request)
    ensures
        r.payload@ == seq![0x0Du8] + public_key@,
        awaits(r.reply, seq![PacketType::Success, PacketType::Error]),
{
    let mut p: Vec<u8> = Vec::new();
    p.push(0x0D);
    push_all(&mut p, public_key.as_bytes());
    assert(p@ =~= seq![0x0Du8] + public_key@);
    request(p, shapes2(PacketType::Success, PacketType::Error))
}

/// Shares a contact over the mesh.
pub fn share_contact(public_key: &PublicKey) -> (r: Request)
    ensures
        r.payload@ == seq![0x10u8] + public_key@,
        awaits(r.reply, seq![PacketType::Success, PacketType::Error]),
{
    let mut p: Vec<u8> = Vec::new();
    p.push(0x10);
    push_all(&mut p, public_key.as_bytes());
    assert(p@ =~= seq![0x10u8] + public_key@);
    request(p, shapes2(PacketType::Success, PacketType::Error))
}

/// Imports a contact card.
pub fn import_contact(card_data: &[u8]) -> (r: Request)
    ensures
        r.payload@ == seq![0x12u8] + card_data@,
        awaits(r.reply, seq![PacketType::Success, PacketType::Error]),
{
    let mut p: Vec<u8> = Vec::new();
    p.push(0x12);
    push_all(&mut p, card_data);
    assert(p@ =~= seq![0x12u8] + card_data@);
    request(p, shapes2(PacketType::Success, PacketType::Error))
}

/// Sends a private message; answered with its acknowledgement code.
pub fn send_message(destination: &PublicKey, message: &str, attempt: u8, timestamp: u32) -> (r: Request)
    ensures
        r.payload@ == seq![0x02u8] + seq![0x00u8] + seq![attempt] + le_bytes_u32(timestamp) + destination@.take(6) + message.spec_bytes(),
        awaits(r.reply, seq![PacketType::MsgSent, PacketType::Error]),
{
    let mut p: Vec<u8> = Vec::new();
    p.push(0x02);
    p.push(0x00);
    p.push(attempt);
    push_u32_le(&mut p, timestamp);
    let prefix = destination.prefix();
    push_all(&mut p, prefix.as_slice());
    push_all(&mut p, message.as_bytes());
    assert(p@ =~= seq![0x02u8] + seq![0x00u8] + seq![attempt] + le_bytes_u32(timestamp) + destination@.take(6) + message.spec_bytes());
    request(p, shapes2(PacketType::MsgSent, PacketType::Error))
}

/// Sends a command to a contact; answered with its acknowledgement code.
pub fn send_command(destination: &PublicKey, command: &str, timestamp: u32) -> (r: Request)
    ensures
        r.payload@ == seq![0x02u8] + seq![0x01u8] + seq![0x00u8] + le_bytes_u32(timestamp) + destination@.take(6) + command.spec_bytes(),
        awaits(r.reply, seq![PacketType::MsgSent, PacketType::Error]),
{
    let mut p: Vec<u8> = Vec::new();
    p.push(0x02);
    p.push(0x01);
    p.push(0x00);
    push_u32_le(&mut p, timestamp);
    let prefix = destination.prefix();
    push_all(&mut p, prefix.as_slice());
    push_all(&mut p, command.as_bytes());
    assert(p@ =~= seq![0x02u8] + seq![0x01u8] + seq![0x00u8] + le_bytes_u32(timestamp) + destination@.take(6) + command.spec_bytes());
    request(p, shapes2(PacketType::MsgSent, PacketType::Error))
}

/// Sends a message on a group channel.
pub fn send_channel_message(channel_index: u8, message: &str, timestamp: u32) -> (r: Request)
    ensures
        r.payload@ == seq![0x03u8] + seq![0x00u8] + seq![channel_index] + le_bytes_u32(timestamp) + message.spec_bytes(),
        awaits(r.reply, seq![PacketType::Success, PacketType::Error]),
{
    let mut p: Vec<u8> = Vec::new();
    p.push(0x03);
    p.push(0x00);
    p.push(channel_index);
    push_u32_le(&mut p, timestamp);
    push_all(&mut p, message.as_bytes());
    assert(p@ =~= seq![0x03u8] + seq![0x00u8] + seq![channel_index] + le_bytes_u32(timestamp) + message.spec_bytes());
    request(p, shapes2(PacketType::Success, PacketType::Error))
}

/// Asks for the next waiting message.
pub fn get_message() -> (r: Request)
    ensures
        r.payload@ == seq![0x0Au8],
        awaits(r.reply, seq![PacketType::ContactMsgRecv, PacketType::ContactMsgRecvV3, PacketType::ChannelMsgRecv, PacketType::ChannelMsgRecvV3, PacketType::NoMoreMsgs, PacketType::Error]),
{
    let mut p: Vec<u8> = Vec::new();
    p.push(0x0A);
    assert(p@ =~= seq![0x0Au8]);
    let kinds = vec![PacketType::ContactMsgRecv, PacketType::ContactMsgRecvV3, PacketType::ChannelMsgRecv, PacketType::ChannelMsgRecvV3, PacketType::NoMoreMsgs, PacketType::Error];
    assert(kinds@ =~= seq![PacketType::ContactMsgRecv, PacketType::ContactMsgRecvV3, PacketType::ChannelMsgRecv, PacketType::ChannelMsgRecvV3, PacketType::NoMoreMsgs, PacketType::Error]);
    request(p, Reply::Shapes(kinds))
}

/// Logs in to a room server; the outcome comes later as a push.
pub fn send_login(destination: &PublicKey, password: &str) -> (r: Request)
    ensures
        r.payload@ == seq![0x1Au8] + destination@ + password.spec_bytes(),
        awaits(r.reply, seq![PacketType::MsgSent, PacketType::Error]),
{
    let mut p: Vec<u8> = Vec::new();
    p.push(0x1A);
    push_all(&mut p, destination.as_bytes());
    push_all(&mut p, password.as_bytes());
    assert(p@ =~= seq![0x1Au8] + destination@ + password.spec_bytes());
    request(p, shapes2(PacketType::MsgSent, PacketType::Error))
}

/// Logs out of a room server.
pub fn send_logout(destination: &PublicKey) -> (r: Request)
    ensures
        r.payload@ == seq![0x1Du8] + destination@,
        awaits(r.reply, seq![PacketType::Success, PacketType::Error]),
{
    let mut p: Vec<u8> = Vec::new();
    p.push(0x1D);
    push_all(&mut p, destination.as_bytes());
    assert(p@ =~= seq![0x1Du8] + destination@);
    request(p, shapes2(PacketType::Success, PacketType::Error))
}

/// Asks a contact for its status; the status comes later as a push.
pub fn send_status_request(destination: &PublicKey) -> (r: Request)
    ensures
        r.payload@ == seq![0x1Bu8] + destination@,
        awaits(r.reply, seq![PacketType::MsgSent, PacketType::Error]),
{
    let mut p: Vec<u8> = Vec::new();
    p.push(0x1B);
    push_all(&mut p, destination.as_bytes());
    assert(p@ =~= seq![0x1Bu8] + destination@);
    request(p, shapes2(PacketType::MsgSent, PacketType::Error))
}

/// Asks for a channel's configuration.
pub fn get_channel(index: u8) -> (r: Request)
    ensures
        r.payload@ == seq![0x1Fu8] + seq![index],
        awaits(r.reply, seq![PacketType::ChannelInfo, PacketType::Error]),
{
    let mut p: Vec<u8> = Vec::new();
    p.push(0x1F);
    p.push(index);
    assert(p@ =~= seq![0x1Fu8] + seq![index]);
    request(p, shapes2(PacketType::ChannelInfo, PacketType::Error))
}

/// Configures a channel; the name is cut or zero-padded to 32 bytes.
pub fn set_channel(index: u8, name: &str, secret: &[u8; 16]) -> (r: Request)
    ensures
        r.payload@ == seq![0x20u8] + seq![index] + padded(name.spec_bytes(), 32) + secret@,
        r.reply is Settle,
{
    let mut p: Vec<u8> = Vec::new();
    p.push(0x20);
    p.push(index);
    push_padded(&mut p, name.as_bytes(), 32);
    push_all(&mut p, secret.as_slice());
    assert(p@ =~= seq![0x20u8] + seq![index] + padded(name.spec_bytes(), 32) + secret@);
    request(p, Reply::Settle)
}

/// Sends a binary request to a contact; answered with its acknowledgement code, the response comes later as a push.
pub fn binary_request(destination: &PublicKey, request_type: BinaryReqType, data: &[u8]) -> (r: Request)
    ensures
        r.payload@ == seq![0x32u8] + destination@ + seq![code_of_binary_req_type(request_type)] + data@,
        awaits(r.reply, seq![PacketType::MsgSent, PacketType::Error]),
{
    let mut p: Vec<u8> = Vec::new();
    p.push(0x32);
    push_all(&mut p, destination.as_bytes());
    p.push(request_type.to_byte());
    push_all(&mut p, data);
    assert(p@ =~= seq![0x32u8] + destination@ + seq![code_of_binary_req_type(request_type)] + data@);
    request(p, shapes2(PacketType::MsgSent, PacketType::Error))
}

/// Asks for the device's own telemetry.
pub fn get_self_telemetry() -> (r: Request)
    ensures
        r.payload@ == seq![0x27u8, 0x00, 0x00, 0x00],
        awaits(r.reply, seq![PacketType::TelemetryResponse, PacketType::Error]),
{
    let mut p: Vec<u8> = Vec::new();
    let lit: [u8; 4] = [0x27u8, 0x00, 0x00, 0x00];
    push_all(&mut p, lit.as_slice());
    assert(p@ =~= seq![0x27u8, 0x00, 0x00, 0x00]);
    request(p, shapes2(PacketType::TelemetryResponse, PacketType::Error))
}

/// Asks a contact for telemetry; answered with its acknowledgement code.
pub fn send_telemetry_request(destination: &PublicKey) -> (r: Request)
    ensures
        r.payload@ == seq![0x27u8, 0x00, 0x00, 0x00] + destination@,
        awaits(r.reply, seq![PacketType::MsgSent, PacketType::Error]),
{
    let mut p: Vec<u8> = Vec::new();
    let lit: [u8; 4] = [0x27u8, 0x00, 0x00, 0x00];
    push_all(&mut p, lit.as_slice());
    push_all(&mut p, destination.as_bytes());
    assert(p@ =~= seq![0x27u8, 0x00, 0x00, 0x00] + destination@);
    request(p, shapes2(PacketType::MsgSent, PacketType::Error))
}

/// Starts path discovery to a contact; the path comes later as a push.
pub fn path_discovery(destination: &PublicKey) -> (r: Request)
    ensures
        r.payload@ == seq![0x34u8] + seq![0x00u8] + destination@,
        awaits(r.reply, seq![PacketType::MsgSent, PacketType::Error]),
{
    let mut p: Vec<u8> = Vec::new();
    p.push(0x34);
    p.push(0x00);
    push_all(&mut p, destination.as_bytes());
    assert(p@ =~= seq![0x34u8] + seq![0x00u8] + destination@);
    request(p, shapes2(PacketType::MsgSent, PacketType::Error))
}

/// Sends a trace along a path of repeaters, tagged by `tag`.
pub fn send_trace(tag: u32, auth_code: u32, flags: u8, path: &[u8]) -> (r: Request)
    ensures
        r.payload@ == seq![0x24u8] + le_bytes_u32(tag) + le_bytes_u32(auth_code) + seq![flags] + path@,
        awaits(r.reply, seq![PacketType::MsgSent, PacketType::Error]),
{
    let mut p: Vec<u8> = Vec::new();
    p.push(0x24);
    push_u32_le(&mut p, tag);
    push_u32_le(&mut p, auth_code);
    p.push(flags);
    push_all(&mut p, path);
    assert(p@ =~= seq![0x24u8] + le_bytes_u32(tag) + le_bytes_u32(auth_code) + seq![flags] + path@);
    request(p, shapes2(PacketType::MsgSent, PacketType::Error))
}

/// Limits flooding to a 16-byte scope; all zeros lifts the limit.
pub fn set_flood_scope(scope_key: &[u8; 16]) -> (r: Request)
    ensures
        r.payload@ == seq![0x36u8] + seq![0x00u8] + scope_key@,
        awaits(r.reply, seq![PacketType::Success, PacketType::Error]),
{
    let mut p: Vec<u8> = Vec::new();
    p.push(0x36);
    p.push(0x00);
    push_all(&mut p, scope_key.as_slice());
    assert(p@ =~= seq![0x36u8] + seq![0x00u8] + scope_key@);
    request(p, shapes2(PacketType::Success, PacketType::Error))
}

/// Starts a signature.
pub fn sign_start() -> (r: Request)
    ensures
        r.payload@ == seq![0x21u8],
        awaits(r.reply, seq![PacketType::SignStart, PacketType::Error]),
{
    let mut p: Vec<u8> = Vec::new();
    p.push(0x21);
    assert(p@ =~= seq![0x21u8]);
    request(p, shapes2(PacketType::SignStart, PacketType::Error))
}

/// Sends a chunk of the data to sign.
pub fn sign_data(chunk: &[u8]) -> (r: Request)
    ensures
        r.payload@ == seq![0x22u8] + chunk@,
        awaits(r.reply, seq![PacketType::Success, PacketType::Error]),
{
    let mut p: Vec<u8> = Vec::new();
    p.push(0x22);
    push_all(&mut p, chunk);
    assert(p@ =~= seq![0x22u8] + chunk@);
    request(p, shapes2(PacketType::Success, PacketType::Error))
}

/// Finishes a signature; answered with the signature.
pub fn sign_finish() -> (r: Request)
    ensures
        r.payload@ == seq![0x23u8],
        awaits(r.reply, seq![PacketType::Signature, PacketType::Error]),
{
    let mut p: Vec<u8> = Vec::new();
    p.push(0x23);
    assert(p@ =~= seq![0x23u8]);
    request(p, shapes2(PacketType::Signature, PacketType::Error))
}
/// Sets the device's position, in millionths of a degree. Latitudes
/// beyond 90 degrees either way and longitudes beyond 180 are refused
/// without contacting the device. Zero means "not set" to the device, so
/// the origin cannot be set.
pub fn set_coords(lat_micro: i32, lon_micro: i32) -> (r: Result<Request, Error>)
    ensures
        r is Err <==> !coords_valid(lat_micro, lon_micro),
        r matches Err(e) ==> e is InvalidCoordinates,
        r matches Ok(q) ==> q.payload@ == seq![0x0Eu8] + le_bytes_i32(lat_micro) + le_bytes_i32(
            lon_micro,
        ) + le_bytes_i32(0) && q.reply is Settle,
{
    if lat_micro < -MAX_LATITUDE_MICRO || lat_micro > MAX_LATITUDE_MICRO {
        return Err(Error::InvalidCoordinates { reason: "latitude out of range (-90 to 90)".to_owned() });
    }
    if lon_micro < -MAX_LONGITUDE_MICRO || lon_micro > MAX_LONGITUDE_MICRO {
        return Err(
            Error::InvalidCoordinates { reason: "longitude out of range (-180 to 180)".to_owned() },
        );
    }
    let mut p: Vec<u8> = Vec::new();
    p.push(0x0E);
    push_i32_le(&mut p, lat_micro);
    push_i32_le(&mut p, lon_micro);
    push_i32_le(&mut p, 0);
    assert(p@ =~= seq![0x0Eu8] + le_bytes_i32(lat_micro) + le_bytes_i32(lon_micro) + le_bytes_i32(0));
    Ok(request(p, Reply::Settle))
}

/// Sends an advertisement, flooded through the mesh if `flood`.
pub fn send_advert(flood: bool) -> (r: Request)
    ensures
        r.payload@ == (if flood { seq![0x07u8, 0x01] } else { seq![0x07u8] }),
        awaits(r.reply, seq![PacketType::Success, PacketType::Error]),
{
    let mut p: Vec<u8> = Vec::new();
    p.push(0x07);
    if flood {
        p.push(0x01);
    }
    assert(p@ =~= (if flood { seq![0x07u8, 0x01] } else { seq![0x07u8] }));
    request(p, shapes2(PacketType::Success, PacketType::Error))
}

/// Asks for the contact list, or only for contacts changed since
/// `last_modified`. The contacts arrive as events, closed by an end-of-list
/// event.
pub fn get_contacts(last_modified: Option<u32>) -> (r: Request)
    ensures
        r.payload@ == seq![0x04u8] + match last_modified {
            Some(ts) => le_bytes_u32(ts),
            None => Seq::empty(),
        },
        awaits(r.reply, seq![PacketType::ContactEnd, PacketType::Error]),
{
    let mut p: Vec<u8> = Vec::new();
    p.push(0x04);
    if let Some(ts) = last_modified {
        push_u32_le(&mut p, ts);
    }
    assert(p@ =~= seq![0x04u8] + match last_modified {
        Some(ts) => le_bytes_u32(ts),
        None => Seq::empty(),
    });
    request(p, shapes2(PacketType::ContactEnd, PacketType::Error))
}

/// Asks for a contact card: a contact's, or the device's own.
pub fn export_contact(public_key: Option<&PublicKey>) -> (r: Request)
    ensures
        r.payload@ == seq![0x11u8] + match public_key {
            Some(k) => k@,
            None => Seq::empty(),
        },
        awaits(r.reply, seq![PacketType::ContactUri, PacketType::Error]),
{
    let mut p: Vec<u8> = Vec::new();
    p.push(0x11);
    if let Some(k) = public_key {
        push_all(&mut p, k.as_bytes());
    }
    assert(p@ =~= seq![0x11u8] + match public_key {
        Some(k) => k@,
        None => Seq::empty(),
    });
    request(p, shapes2(PacketType::ContactUri, PacketType::Error))
}

/// The payload of a contact update.
pub open spec fn update_contact_payload(params: ContactUpdateParams) -> Seq<u8> {
    seq![0x09u8] + params.public_key@ + seq![params.contact_type, params.flags, (if params.path_len
        >= 0 {
        params.path_len as int
    } else {
        params.path_len + 256
    }) as u8] + padded(params.path@, 64) + padded(encode_utf8(params.name@), 32)
        + le_bytes_u32(params.last_advert) + le_bytes_i32(coord_or_zero(params.latitude))
        + le_bytes_i32(coord_or_zero(params.longitude))
}

/// Writes a contact to the device: path cut or zero-padded to 64 bytes,
/// name to 32, coordinates zero when not set.
pub fn update_contact(params: &ContactUpdateParams) -> (r: Request)
    ensures
        r.payload@ == update_contact_payload(*params),
        awaits(r.reply, seq![PacketType::Success, PacketType::Error]),
{
    let mut p: Vec<u8> = Vec::new();
    p.push(0x09);
    push_all(&mut p, params.public_key.as_bytes());
    p.push(params.contact_type);
    p.push(params.flags);
    let pl: u8 = if params.path_len >= 0 {
        params.path_len as u8
    } else {
        (params.path_len as i16 + 256) as u8
    };
    p.push(pl);
    push_padded(&mut p, params.path.as_slice(), 64);
    push_padded(&mut p, params.name.as_str().as_bytes(), 32);
    push_u32_le(&mut p, params.last_advert);
    push_i32_le(&mut p, coord_or_zero_exec(params.latitude));
    push_i32_le(&mut p, coord_or_zero_exec(params.longitude));
    assert(p@ =~= update_contact_payload(*params));
    request(p, shapes2(PacketType::Success, PacketType::Error))
}

fn coord_or_zero_exec(c: Option<i32>) -> (r: i32)
    ensures
        r == coord_or_zero(c),
{
    match c {
        Some(v) => v,
        None => 0,
    }
}

/// The body of a neighbour-list request: version 0, the page size and
/// offset, the sort field, the key-prefix length and a tag.
pub fn neighbours_request_data(max_results: u8, offset: u16, order_by: u8, prefix_len: u8, tag: u32) -> (r: Vec<u8>)
    ensures
        r@ == seq![0x00u8, max_results] + le_bytes_u16(offset) + seq![order_by, prefix_len]
            + le_bytes_u32(tag),
{
    let mut p: Vec<u8> = Vec::new();
    p.push(0x00);
    p.push(max_results);
    push_u16_le(&mut p, offset);
    p.push(order_by);
    p.push(prefix_len);
    push_u32_le(&mut p, tag);
    assert(p@ =~= seq![0x00u8, max_results] + le_bytes_u16(offset) + seq![order_by, prefix_len]
        + le_bytes_u32(tag));
    p
}

/// Asks a contact for a page of its neighbour list, tagged by `tag`.
pub fn binary_neighbours_request(
    destination: &PublicKey,
    max_results: u8,
    offset: u16,
    order_by: u8,
    prefix_len: u8,
    tag: u32,
) -> (r: Request)
    ensures
        r.payload@ == seq![0x32u8] + destination@ + seq![0x06u8] + seq![0x00u8, max_results]
            + le_bytes_u16(offset) + seq![order_by, prefix_len] + le_bytes_u32(tag),
        awaits(r.reply, seq![PacketType::MsgSent, PacketType::Error]),
{
    let data = neighbours_request_data(max_results, offset, order_by, prefix_len, tag);
    let r = binary_request(destination, BinaryReqType::Neighbours, data.as_slice());
    assert(r.payload@ =~= seq![0x32u8] + destination@ + seq![0x06u8] + seq![0x00u8, max_results]
        + le_bytes_u16(offset) + seq![order_by, prefix_len] + le_bytes_u32(tag));
    r
}

/// Lifts any flood scope.
pub fn clear_flood_scope() -> (r: Request)
    ensures
        r.payload@ == seq![0x36u8, 0x00] + Seq::new(16, |i: int| 0u8),
        awaits(r.reply, seq![PacketType::Success, PacketType::Error]),
{
    let zeros = [0u8; 16];
    assert(zeros@ =~= Seq::new(16, |i: int| 0u8));
    set_flood_scope(&zeros)
}

/// Limits flooding to the scope named by a topic: the first 16 bytes of
/// the SHA-256 digest of its text.
pub fn set_flood_scope_topic(topic: &str) -> (r: Request)
    ensures
        r.payload@ == seq![0x36u8, 0x00] + sha256_of(topic.spec_bytes()).take(16),
        awaits(r.reply, seq![PacketType::Success, PacketType::Error]),
{
    let digest = sha256(topic.as_bytes());
    let mut key = [0u8; 16];
    let mut i: usize = 0;
    while i < 16
        invariant
            digest@.len() == 32,
            i <= 16,
            forall|j: int| 0 <= j < i ==> key@[j] == digest@[j],
        decreases 16 - i,
    {
        key[i] = digest[i];
        i = i + 1;
    }
    assert(key@ =~= digest@.take(16));
    set_flood_scope(&key)
}

/// Asks the mesh to report its nodes: a type filter, whether only key
/// prefixes are wanted, a tag, and optionally a time after which nodes
/// must have been updated.
pub fn node_discover(filter: u8, prefix_only: bool, tag: u32, since: Option<u32>) -> (r: Request)
    ensures
        r.payload@ == seq![0x37u8, (if prefix_only { 0x81u8 } else { 0x80u8 }), filter]
            + le_bytes_u32(tag) + match since {
            Some(ts) => le_bytes_u32(ts),
            None => Seq::empty(),
        },
        awaits(r.reply, seq![PacketType::Success, PacketType::Error]),
{
    let mut p: Vec<u8> = Vec::new();
    p.push(0x37);
    p.push(if prefix_only { 0x81u8 } else { 0x80u8 });
    p.push(filter);
    push_u32_le(&mut p, tag);
    if let Some(ts) = since {
        push_u32_le(&mut p, ts);
    }
    assert(p@ =~= seq![0x37u8, (if prefix_only { 0x81u8 } else { 0x80u8 }), filter]
        + le_bytes_u32(tag) + match since {
        Some(ts) => le_bytes_u32(ts),
        None => Seq::empty(),
    });
    request(p, shapes2(PacketType::Success, PacketType::Error))
}

} // verus!
