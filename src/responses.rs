//! Interpretation of the event that answers a command.
//!
//! An error packet from the device becomes a protocol error carrying the
//! device's message; any other unexpected event becomes a protocol error
//! saying so.

use vstd::prelude::*;

use crate::device::{BatteryStatus, Channel, DeviceInfo, SelfInfo};
use crate::error::Error;
use crate::event::{Event, StatsData};
use crate::stats::{CoreStats, PacketStats, RadioStats};
use crate::telemetry::Telemetry;

verus! {

/// Whether `err` is what a command answered by `e` fails with, when `e` is
/// not the expected answer: the device's own message for an error packet,
/// otherwise `unexpected`.
pub open spec fn rejection(e: Event, unexpected: Seq<char>, err: Error) -> bool {
    match e {
        Event::Error { message } => err matches Error::Protocol { message: m } && m@ == message@,
        _ => err matches Error::Protocol { message: m } && m@ == unexpected,
    }
}

fn reject(e: Event, unexpected: &str) -> (r: Error)
    ensures
        rejection(e, unexpected@, r),
{
    match e {
        Event::Error { message } => Error::Protocol { message },
        _ => Error::Protocol { message: unexpected.to_owned() },
    }
}

/// What a command expecting a plain acknowledgement returns for its answer.
pub fn expect_ok(event: Event) -> (r: Result<(), Error>)
    ensures
        event is Success ==> r is Ok,
        !(event is Success) ==> (r matches Err(err) && rejection(
            event,
            "unexpected response"@,
            err,
        )),
{
    match event {
        Event::Success => Ok(()),
        other => Err(reject(other, "unexpected response")),
    }
}

/// What a contact-list request returns for its answer: success once the
/// end of the list arrives.
pub fn expect_contact_list_end(event: Event) -> (r: Result<(), Error>)
    ensures
        event is ContactListEnd ==> r is Ok,
        !(event is ContactListEnd) ==> (r matches Err(err) && rejection(
            event,
            "unexpected response to GetContacts"@,
            err,
        )),
{
    match event {
        Event::ContactListEnd { .. } => Ok(()),
        other => Err(reject(other, "unexpected response to GetContacts")),
    }
}

/// The device's self-description from the answer to the start command, or
/// why there is none.
pub fn expect_self_info(event: Event) -> (r: Result<SelfInfo, Error>)
    ensures
        match event {
            Event::SelfInfo(v) => r == Ok::<SelfInfo, Error>(*v),
            _ => r matches Err(err) && rejection(event, "unexpected response to AppStart"@, err),
        },
{
    match event {
        Event::SelfInfo(v) => Ok(*v),
        other => Err(reject(other, "unexpected response to AppStart")),
    }
}

/// The battery status from the answer to a command, or why there is none.
pub fn expect_battery(event: Event) -> (r: Result<BatteryStatus, Error>)
    ensures
        match event {
            Event::Battery(v) => r == Ok::<BatteryStatus, Error>(v),
            _ => r matches Err(err) && rejection(event, "unexpected response"@, err),
        },
{
    match event {
        Event::Battery(v) => Ok(v),
        other => Err(reject(other, "unexpected response")),
    }
}

/// The device description from the answer to a command, or why there is none.
pub fn expect_device_info(event: Event) -> (r: Result<DeviceInfo, Error>)
    ensures
        match event {
            Event::DeviceInfo(v) => r == Ok::<DeviceInfo, Error>(*v),
            _ => r matches Err(err) && rejection(event, "unexpected response"@, err),
        },
{
    match event {
        Event::DeviceInfo(v) => Ok(*v),
        other => Err(reject(other, "unexpected response")),
    }
}

/// The device's clock from the answer to a command, or why there is none.
pub fn expect_time(event: Event) -> (r: Result<u32, Error>)
    ensures
        match event {
            Event::CurrentTime(v) => r == Ok::<u32, Error>(v),
            _ => r matches Err(err) && rejection(event, "unexpected response"@, err),
        },
{
    match event {
        Event::CurrentTime(v) => Ok(v),
        other => Err(reject(other, "unexpected response")),
    }
}

/// The channel configuration from the answer to a command, or why there is
/// none.
pub fn expect_channel(event: Event) -> (r: Result<Channel, Error>)
    ensures
        match event {
            Event::ChannelInfo(v) => r == Ok::<Channel, Error>(*v),
            _ => r matches Err(err) && rejection(event, "unexpected response"@, err),
        },
{
    match event {
        Event::ChannelInfo(v) => Ok(*v),
        other => Err(reject(other, "unexpected response")),
    }
}

/// The telemetry from the answer to a command, or why there is none.
pub fn expect_telemetry(event: Event) -> (r: Result<Telemetry, Error>)
    ensures
        match event {
            Event::TelemetryResponse(v) => r == Ok::<Telemetry, Error>(*v),
            _ => r matches Err(err) && rejection(event, "unexpected response"@, err),
        },
{
    match event {
        Event::TelemetryResponse(v) => Ok(*v),
        other => Err(reject(other, "unexpected response")),
    }
}

/// The acknowledgement code and suggested timeout (ms) from the answer to a
/// sent message or request, or why there is none.
pub fn expect_message_sent(event: Event) -> (r: Result<(u32, u32), Error>)
    ensures
        match event {
            Event::MessageSent { expected_ack, timeout_ms } => r == Ok::<(u32, u32), Error>((expected_ack, timeout_ms)),
            _ => r matches Err(err) && rejection(event, "unexpected response"@, err),
        },
{
    match event {
        Event::MessageSent { expected_ack, timeout_ms } => Ok((expected_ack, timeout_ms)),
        other => Err(reject(other, "unexpected response")),
    }
}

/// The core statistics from the answer to a command, or why there are none.
pub fn expect_core_stats(event: Event) -> (r: Result<CoreStats, Error>)
    ensures
        match event {
            Event::Stats(StatsData::Core(v)) => r == Ok::<CoreStats, Error>(v),
            _ => r matches Err(err) && rejection(event, "unexpected response"@, err),
        },
{
    match event {
        Event::Stats(StatsData::Core(v)) => Ok(v),
        other => Err(reject(other, "unexpected response")),
    }
}

/// The radio statistics from the answer to a command, or why there are none.
pub fn expect_radio_stats(event: Event) -> (r: Result<RadioStats, Error>)
    ensures
        match event {
            Event::Stats(StatsData::Radio(v)) => r == Ok::<RadioStats, Error>(v),
            _ => r matches Err(err) && rejection(event, "unexpected response"@, err),
        },
{
    match event {
        Event::Stats(StatsData::Radio(v)) => Ok(v),
        other => Err(reject(other, "unexpected response")),
    }
}

/// The packet counters from the answer to a command, or why there are none.
pub fn expect_packet_stats(event: Event) -> (r: Result<PacketStats, Error>)
    ensures
        match event {
            Event::Stats(StatsData::Packets(v)) => r == Ok::<PacketStats, Error>(v),
            _ => r matches Err(err) && rejection(event, "unexpected response"@, err),
        },
{
    match event {
        Event::Stats(StatsData::Packets(v)) => Ok(v),
        other => Err(reject(other, "unexpected response")),
    }
}

/// One step of draining the device's waiting messages: a message to keep,
/// the end of the queue (`None`), or the device's error.
pub fn fetched_message(event: Event) -> (r: Result<Option<Event>, Error>)
    ensures
        match event {
            Event::Error { message } => r matches Err(Error::Protocol { message: m }) && m@
                == message@,
            Event::ContactMessage(_) | Event::ChannelMessage(_) => r == Ok::<
                Option<Event>,
                Error,
            >(Some(event)),
            _ => r == Ok::<Option<Event>, Error>(None),
        },
{
    match event {
        Event::Error { message } => Err(Error::Protocol { message }),
        Event::ContactMessage(m) => Ok(Some(Event::ContactMessage(m))),
        Event::ChannelMessage(m) => Ok(Some(Event::ChannelMessage(m))),
        _ => Ok(None),
    }
}

/// The error of a wait that ended without a matching event.
pub fn timeout_error(timeout_ms: u64) -> (r: Error)
    ensures
        r == (Error::Timeout { timeout_ms }),
{
    Error::Timeout { timeout_ms }
}

} // verus!
