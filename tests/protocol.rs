use meshcore::command::{BinaryReqType, CommandOpcode, MessageType, StatsType};
use meshcore::packet::PacketType;

#[test]
fn test_command_opcode_values() {
    assert_eq!(u8::from(CommandOpcode::AppStart), 0x01);
    assert_eq!(u8::from(CommandOpcode::SendMessage), 0x02);
    assert_eq!(u8::from(CommandOpcode::GetContacts), 0x04);
    assert_eq!(u8::from(CommandOpcode::GetBattery), 0x14);
    assert_eq!(u8::from(CommandOpcode::DeviceQuery), 0x16);
    assert_eq!(u8::from(CommandOpcode::BinaryReq), 0x32);
}

#[test]
fn test_message_type_values() {
    assert_eq!(u8::from(MessageType::Private), 0x00);
    assert_eq!(u8::from(MessageType::Command), 0x01);
}

#[test]
fn test_stats_type_values() {
    assert_eq!(u8::from(StatsType::Core), 0x00);
    assert_eq!(u8::from(StatsType::Radio), 0x01);
    assert_eq!(u8::from(StatsType::Packets), 0x02);
}

#[test]
fn test_binary_req_type_values() {
    assert_eq!(u8::from(BinaryReqType::Status), 0x01);
    assert_eq!(u8::from(BinaryReqType::KeepAlive), 0x02);
    assert_eq!(u8::from(BinaryReqType::Telemetry), 0x03);
}

#[test]
fn test_command_from_conversion() {
    let cmd: u8 = CommandOpcode::AppStart.into();
    assert_eq!(cmd, 0x01);
}

#[test]
fn test_packet_type_from_byte() {
    assert_eq!(PacketType::from_byte(0x00), Some(PacketType::Success));
    assert_eq!(PacketType::from_byte(0x80), Some(PacketType::Advertisement));
    assert_eq!(PacketType::from_byte(0xFF), None);
}

#[test]
fn test_is_push() {
    assert!(!PacketType::Success.is_push());
    assert!(!PacketType::SelfInfo.is_push());
    assert!(PacketType::Advertisement.is_push());
    assert!(PacketType::Ack.is_push());
}

#[test]
fn packet_type_round_trips_every_known_byte() {
    let mut known = 0;
    for b in 0..=255u8 {
        if let Some(p) = PacketType::from_byte(b) {
            known += 1;
            assert_eq!(u8::from(p), b);
            assert_eq!(p.is_push(), b >= 0x80);
            assert_eq!(p.is_response(), b < 0x80);
        }
    }
    assert_eq!(known, 43);
}

#[test]
fn keep_alive_expects_no_response() {
    assert!(!BinaryReqType::KeepAlive.expects_response());
    assert!(BinaryReqType::Status.expects_response());
    assert!(BinaryReqType::Neighbours.expects_response());
}
