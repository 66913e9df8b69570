use meshcore::commands::{self, ContactUpdateParams, Reply};
use meshcore::contact::PublicKey;
use meshcore::device::BatteryStatus;
use meshcore::error::Error;
use meshcore::event::Event;
use meshcore::packet::PacketType;
use meshcore::responses::{
    expect_battery, expect_contact_list_end, expect_message_sent, expect_ok, fetched_message,
    timeout_error,
};
use meshcore::{BinaryReqType, StatsType};

fn kinds(r: &Reply) -> Vec<PacketType> {
    match r {
        Reply::Shapes(k) => k.clone(),
        Reply::Settle => vec![],
    }
}

#[test]
fn app_start_payload() {
    let r = commands::app_start();
    assert_eq!(r.payload, b"\x01\x03      mccli".to_vec());
    assert_eq!(kinds(&r.reply), vec![PacketType::SelfInfo, PacketType::Error]);
}

#[test]
fn simple_queries() {
    assert_eq!(commands::get_time().payload, vec![0x05]);
    assert_eq!(commands::get_battery().payload, vec![0x14]);
    assert_eq!(commands::device_query().payload, vec![0x16, 0x03]);
    assert_eq!(commands::get_stats(StatsType::Radio).payload, vec![0x38, 0x01]);
    assert_eq!(commands::get_channel(4).payload, vec![0x1F, 4]);
    assert_eq!(commands::get_self_telemetry().payload, vec![0x27, 0, 0, 0]);
    assert_eq!(
        kinds(&commands::get_message().reply),
        vec![
            PacketType::ContactMsgRecv,
            PacketType::ContactMsgRecvV3,
            PacketType::ChannelMsgRecv,
            PacketType::ChannelMsgRecvV3,
            PacketType::NoMoreMsgs,
            PacketType::Error
        ]
    );
    assert_eq!(
        kinds(&commands::export_private_key().reply),
        vec![PacketType::PrivateKey, PacketType::Error, PacketType::Disabled]
    );
}

#[test]
fn settings_are_fire_and_forget() {
    let r = commands::set_time(0x0102_0304);
    assert_eq!(r.payload, vec![0x06, 4, 3, 2, 1]);
    assert!(matches!(r.reply, Reply::Settle));
    assert_eq!(commands::set_tx_power(-2).payload, vec![0x0C, 0xFE, 0xFF, 0xFF, 0xFF]);
    assert_eq!(
        commands::set_radio(869_525, 250_000, 11, 5).payload,
        vec![0x0B, 0x95, 0x44, 0x0D, 0x00, 0x90, 0xD0, 0x03, 0x00, 11, 5]
    );
    assert_eq!(commands::set_other_params(true, 3, 1, 2).payload, vec![0x26, 1, 3, 1, 2]);
    assert_eq!(commands::set_name("bob").payload, b"\x08bob".to_vec());
    assert_eq!(commands::set_custom_var("k", "v").payload, b"\x29k:v".to_vec());
    assert_eq!(
        commands::set_tuning(1, -1).payload,
        vec![0x15, 1, 0, 0, 0, 0xFF, 0xFF, 0xFF, 0xFF, 0, 0]
    );
}

#[test]
fn coordinates_are_range_checked() {
    let r = commands::set_coords(51_500_000, -1_278_000).unwrap();
    let mut want = vec![0x0E];
    want.extend_from_slice(&51_500_000i32.to_le_bytes());
    want.extend_from_slice(&(-1_278_000i32).to_le_bytes());
    want.extend_from_slice(&0i32.to_le_bytes());
    assert_eq!(r.payload, want);
    assert!(commands::set_coords(90_000_000, 180_000_000).is_ok());
    assert!(commands::set_coords(-90_000_000, -180_000_000).is_ok());
    assert!(matches!(commands::set_coords(90_000_001, 0), Err(Error::InvalidCoordinates { .. })));
    assert!(matches!(commands::set_coords(0, -180_000_001), Err(Error::InvalidCoordinates { .. })));
}

#[test]
fn message_payloads() {
    let mut kb = [0u8; 32];
    kb[..6].copy_from_slice(&[1, 2, 3, 4, 5, 6]);
    let key = PublicKey::from_bytes(&kb);
    let r = commands::send_message(&key, "hi", 1, 10);
    assert_eq!(r.payload, vec![0x02, 0x00, 1, 10, 0, 0, 0, 1, 2, 3, 4, 5, 6, b'h', b'i']);
    assert_eq!(kinds(&r.reply), vec![PacketType::MsgSent, PacketType::Error]);
    let r = commands::send_command(&key, "ls", 10);
    assert_eq!(r.payload, vec![0x02, 0x01, 0, 10, 0, 0, 0, 1, 2, 3, 4, 5, 6, b'l', b's']);
    let r = commands::send_channel_message(2, "yo", 10);
    assert_eq!(r.payload, vec![0x03, 0x00, 2, 10, 0, 0, 0, b'y', b'o']);
    assert_eq!(kinds(&r.reply), vec![PacketType::Success, PacketType::Error]);
}

#[test]
fn keyed_payloads() {
    let key = PublicKey::from_bytes(&[9u8; 32]);
    let mut want = vec![0x0F];
    want.extend_from_slice(&[9u8; 32]);
    assert_eq!(commands::remove_contact(&key).payload, want);
    assert_eq!(commands::export_contact(None).payload, vec![0x11]);
    assert_eq!(commands::export_contact(Some(&key)).payload.len(), 33);
    let r = commands::binary_request(&key, BinaryReqType::Telemetry, &[7]);
    assert_eq!(r.payload[0], 0x32);
    assert_eq!(&r.payload[33..], &[0x03, 7]);
    let r = commands::binary_neighbours_request(&key, 10, 0x0102, 1, 6, 0xAABBCCDD);
    assert_eq!(&r.payload[33..], &[0x06, 0, 10, 0x02, 0x01, 1, 6, 0xDD, 0xCC, 0xBB, 0xAA]);
    let r = commands::send_telemetry_request(&key);
    assert_eq!(&r.payload[..4], &[0x27, 0, 0, 0]);
    assert_eq!(r.payload.len(), 36);
    assert_eq!(&commands::path_discovery(&key).payload[..2], &[0x34, 0]);
    let mut login = vec![0x1A];
    login.extend_from_slice(&[9u8; 32]);
    login.extend_from_slice(b"pw");
    assert_eq!(commands::send_login(&key, "pw").payload, login);
}

#[test]
fn contact_list_and_trace() {
    assert_eq!(commands::get_contacts(None).payload, vec![0x04]);
    assert_eq!(commands::get_contacts(Some(1)).payload, vec![0x04, 1, 0, 0, 0]);
    assert_eq!(
        kinds(&commands::get_contacts(None).reply),
        vec![PacketType::ContactEnd, PacketType::Error]
    );
    assert_eq!(
        commands::send_trace(1, 2, 3, &[4, 5]).payload,
        vec![0x24, 1, 0, 0, 0, 2, 0, 0, 0, 3, 4, 5]
    );
    assert_eq!(
        commands::node_discover(4, true, 1, None).payload,
        vec![0x37, 0x81, 4, 1, 0, 0, 0]
    );
    assert_eq!(
        commands::node_discover(4, false, 1, Some(2)).payload,
        vec![0x37, 0x80, 4, 1, 0, 0, 0, 2, 0, 0, 0]
    );
}

#[test]
fn contact_update_pads_and_truncates() {
    let params = ContactUpdateParams {
        public_key: PublicKey::from_bytes(&[1u8; 32]),
        contact_type: 1,
        flags: 2,
        path_len: -1,
        path: vec![0xEE; 70],
        name: "n".repeat(40),
        last_advert: 5,
        latitude: Some(-1),
        longitude: None,
    };
    let p = commands::update_contact(&params).payload;
    assert_eq!(p.len(), 1 + 32 + 3 + 64 + 32 + 12);
    assert_eq!(p[0], 0x09);
    assert_eq!(&p[33..36], &[1, 2, 0xFF]);
    assert!(p[36..100].iter().all(|b| *b == 0xEE));
    assert!(p[100..132].iter().all(|b| *b == b'n'));
    assert_eq!(&p[132..], &[5, 0, 0, 0, 0xFF, 0xFF, 0xFF, 0xFF, 0, 0, 0, 0]);

    let short = ContactUpdateParams { path: vec![1], name: "ab".into(), ..params };
    let p = commands::update_contact(&short).payload;
    assert_eq!(&p[36..38], &[1, 0]);
    assert_eq!(&p[100..103], &[b'a', b'b', 0]);
}

#[test]
fn channel_and_flood_scope() {
    let p = commands::set_channel(1, "Public", &[7u8; 16]).payload;
    assert_eq!(p.len(), 2 + 32 + 16);
    assert_eq!(&p[..8], b"\x20\x01Public");
    assert!(p[8..34].iter().all(|b| *b == 0));
    assert_eq!(commands::clear_flood_scope().payload, {
        let mut v = vec![0x36, 0];
        v.extend_from_slice(&[0u8; 16]);
        v
    });
    let topic = commands::set_flood_scope_topic("").payload;
    assert_eq!(
        &topic[2..],
        &[0xe3, 0xb0, 0xc4, 0x42, 0x98, 0xfc, 0x1c, 0x14, 0x9a, 0xfb, 0xf4, 0xc8, 0x99, 0x6f, 0xb9, 0x24]
    );
    assert_eq!(commands::reboot().payload, b"\x13reboot".to_vec());
    assert_eq!(commands::sign_data(&[1, 2]).payload, vec![0x22, 1, 2]);
}

#[test]
fn interpreting_answers() {
    assert!(expect_ok(Event::Success).is_ok());
    match expect_ok(Event::Error { message: "denied".into() }) {
        Err(Error::Protocol { message }) => assert_eq!(message, "denied"),
        other => panic!("unexpected {other:?}"),
    }
    match expect_ok(Event::Disabled) {
        Err(Error::Protocol { message }) => assert_eq!(message, "unexpected response"),
        other => panic!("unexpected {other:?}"),
    }
    let b = BatteryStatus { millivolts: 1, used_kb: None, total_kb: None };
    assert_eq!(expect_battery(Event::Battery(b)).unwrap(), b);
    assert!(expect_contact_list_end(Event::ContactListEnd { last_modified: 0 }).is_ok());
    assert_eq!(
        expect_message_sent(Event::MessageSent { expected_ack: 7, timeout_ms: 900 }).unwrap(),
        (7, 900)
    );
    assert!(matches!(fetched_message(Event::NoMoreMessages), Ok(None)));
    assert!(matches!(fetched_message(Event::Error { message: "x".into() }), Err(Error::Protocol { .. })));
    assert!(matches!(timeout_error(5000), Error::Timeout { timeout_ms: 5000 }));
}
