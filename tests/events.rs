use meshcore::classify::decode_packet;
use meshcore::event::{Event, EventFilter, StatsData};
use meshcore::hub::{EventDispatcher, Received};
use meshcore::message::Acknowledgment;
use meshcore::packet::PacketType;
use meshcore::scaled::Scaled;
use meshcore::state::Session;
use meshcore::telemetry::TelemetryValue;

fn ack(code: u32) -> Event {
    Event::Ack(Acknowledgment { code })
}

fn ack_code(r: Received) -> u32 {
    match r {
        Received::Event(e) => match &*e {
            Event::Ack(a) => a.code,
            other => panic!("unexpected {other:?}"),
        },
        other => panic!("unexpected {other:?}"),
    }
}

fn contact_packet(kind: u8, key: u8, name: &[u8], last_advert: u32) -> Vec<u8> {
    let mut d = vec![kind];
    d.extend_from_slice(&[key; 32]);
    d.extend_from_slice(&[1, 0, 0xFF]);
    d.extend_from_slice(&[0u8; 64]);
    let mut n = [0u8; 32];
    n[..name.len()].copy_from_slice(name);
    d.extend_from_slice(&n);
    d.extend_from_slice(&last_advert.to_le_bytes());
    d.extend_from_slice(&[0u8; 12]);
    d
}

#[test]
fn test_event_filter() {
    let filter = EventFilter::packet_types(vec![PacketType::Success, PacketType::Error]);

    assert!(filter.matches(&Event::Success));
    assert!(filter.matches(&Event::Error { message: "test".into() }));
    assert!(!filter.matches(&Event::Connected));
}

#[test]
fn test_ack_filter() {
    let filter = EventFilter::ack(12345);

    assert!(filter.matches(&Event::Ack(Acknowledgment { code: 12345 })));
    assert!(!filter.matches(&Event::Ack(Acknowledgment { code: 99999 })));
    assert!(!filter.matches(&Event::Success));
}

#[test]
fn test_event_dispatch() {
    let mut hub = EventDispatcher::new(16);
    let mut sub = hub.subscribe(None);
    hub.dispatch(Event::Connected);
    match hub.recv(&mut sub) {
        Received::Event(e) => assert!(matches!(*e, Event::Connected)),
        other => panic!("unexpected {other:?}"),
    }
    assert!(matches!(hub.recv(&mut sub), Received::Empty));
}

#[test]
fn subscription_sees_later_dispatches_in_order() {
    let mut hub = EventDispatcher::new(8);
    hub.dispatch(ack(1));
    hub.dispatch(ack(2));
    let mut late = hub.subscribe(None);
    for c in 3..=6 {
        hub.dispatch(ack(c));
    }
    for c in 3..=6 {
        assert_eq!(ack_code(hub.recv(&mut late)), c);
    }
    assert!(matches!(hub.recv(&mut late), Received::Empty));
    assert_eq!(hub.dispatched_count(), 6);
}

#[test]
fn slow_subscriber_is_told_it_lagged() {
    let mut hub = EventDispatcher::new(2);
    let mut sub = hub.subscribe(None);
    for c in 1..=5 {
        hub.dispatch(ack(c));
    }
    assert!(matches!(hub.recv(&mut sub), Received::Lagged(3)));
    assert_eq!(ack_code(hub.recv(&mut sub)), 4);
    assert_eq!(ack_code(hub.recv(&mut sub)), 5);
    assert!(matches!(hub.recv(&mut sub), Received::Empty));
}

#[test]
fn waiter_for_ack_code_takes_first_match() {
    let mut hub = EventDispatcher::new(16);
    let mut sub = hub.subscribe(None);
    let filter = EventFilter::ack(5);
    assert!(hub.next_match(&mut sub, &filter).is_none());
    hub.dispatch(ack(5));
    hub.dispatch(ack(7));
    hub.dispatch(ack(5));
    let first = hub.next_match(&mut sub, &filter).unwrap();
    assert!(matches!(*first, Event::Ack(Acknowledgment { code: 5 })));
    let second = hub.next_match(&mut sub, &filter).unwrap();
    assert!(matches!(*second, Event::Ack(Acknowledgment { code: 5 })));
    assert!(hub.next_match(&mut sub, &filter).is_none());
}

#[test]
fn waiter_subscribed_before_dispatch_never_misses() {
    let mut hub = EventDispatcher::new(4);
    let mut sub = hub.subscribe(None);
    let filter = EventFilter::packet_types(vec![PacketType::Battery, PacketType::Error]);
    hub.dispatch(Event::MessagesWaiting);
    hub.dispatch(Event::Error { message: "busy".into() });
    let got = hub.next_match(&mut sub, &filter).unwrap();
    assert!(matches!(&*got, Event::Error { message } if message == "busy"));
}

#[test]
fn classify_simple_kinds() {
    assert!(decode_packet(&[]).is_none());
    assert!(matches!(decode_packet(&[0x00]), Some(Event::Success)));
    assert!(matches!(decode_packet(&[0x01, b'n', b'o']), Some(Event::Error { message }) if message == "no"));
    assert!(matches!(decode_packet(&[0x02, 3, 0, 0, 0]), Some(Event::ContactListStart { count: 3 })));
    assert!(matches!(decode_packet(&[0x04, 1]), Some(Event::ContactListEnd { last_modified: 0 })));
    assert!(matches!(
        decode_packet(&[0x06, 0, 1, 0, 0, 0, 0x88, 0x13, 0, 0]),
        Some(Event::MessageSent { expected_ack: 1, timeout_ms: 5000 })
    ));
    assert!(matches!(decode_packet(&[0x82, 5, 0, 0, 0]), Some(Event::Ack(Acknowledgment { code: 5 }))));
    assert!(matches!(decode_packet(&[0x82, 5, 0]), Some(Event::Raw { packet_type: 0x82, .. })));
    assert!(matches!(decode_packet(&[0x09, 0x10, 0, 0, 0]), Some(Event::CurrentTime(16))));
    assert!(matches!(decode_packet(&[0x0A]), Some(Event::NoMoreMessages)));
    assert!(matches!(decode_packet(&[0x83]), Some(Event::MessagesWaiting)));
    assert!(matches!(decode_packet(&[0x85]), Some(Event::LoginSuccess)));
    assert!(matches!(decode_packet(&[0x86]), Some(Event::LoginFailed)));
    assert!(matches!(decode_packet(&[0x0F]), Some(Event::Disabled)));
    assert!(matches!(decode_packet(&[0x13, 0, 0, 1, 0, 0]), Some(Event::SignStarted { max_length: 256 })));
}

#[test]
fn classify_unknown_and_malformed_become_raw() {
    match decode_packet(&[0x7F, 1, 2]) {
        Some(Event::Raw { packet_type, data }) => {
            assert_eq!(packet_type, 0x7F);
            assert_eq!(data, vec![1, 2]);
        }
        other => panic!("unexpected {other:?}"),
    }
    assert!(matches!(decode_packet(&[0x32, 9]), Some(Event::Raw { packet_type: 0x32, .. })));
    assert!(matches!(decode_packet(&[0x05, 1, 2, 3]), Some(Event::Raw { packet_type: 0x05, .. })));
    assert!(matches!(decode_packet(&[0x0C, 1]), Some(Event::Raw { packet_type: 0x0C, .. })));
    assert!(matches!(decode_packet(&[0x18]), Some(Event::Raw { packet_type: 0x18, .. })));
    assert!(matches!(decode_packet(&[0x18, 9, 0]), Some(Event::Raw { packet_type: 0x18, .. })));
    assert!(matches!(decode_packet(&[0x14]), Some(Event::Raw { packet_type: 0x14, .. })));
}

#[test]
fn classify_payload_kinds() {
    match decode_packet(&[0x0B, 0xAB, 0x01]) {
        Some(Event::ContactUri(u)) => assert_eq!(u, "meshcore://ab01"),
        other => panic!("unexpected {other:?}"),
    }
    match decode_packet(&[0x88, b'l', b'o', b'g']) {
        Some(Event::LogData(s)) => assert_eq!(s, "log"),
        other => panic!("unexpected {other:?}"),
    }
    match decode_packet(&[0x8C, 1, 2]) {
        Some(Event::BinaryResponse(b)) => assert_eq!(b, vec![1, 2]),
        other => panic!("unexpected {other:?}"),
    }
    match decode_packet(&[0x0C, 0xD4, 0x0D]) {
        Some(Event::Battery(b)) => assert_eq!(b.millivolts, 3540),
        other => panic!("unexpected {other:?}"),
    }
    let mut stats = vec![0x18, 0x00];
    stats.extend_from_slice(&[0x68, 0x10, 1, 0, 0, 0, 2, 0, 3]);
    match decode_packet(&stats) {
        Some(Event::Stats(StatsData::Core(c))) => {
            assert_eq!(c.battery_mv, 4200);
            assert_eq!(c.uptime_secs, 1);
            assert_eq!(c.errors, 2);
            assert_eq!(c.queue_len, 3);
        }
        other => panic!("unexpected {other:?}"),
    }
    let mut key = vec![0x80];
    key.extend_from_slice(&[9u8; 32]);
    match decode_packet(&key) {
        Some(Event::Advertisement(k)) => assert_eq!(k.as_bytes(), &[9u8; 32]),
        other => panic!("unexpected {other:?}"),
    }
    let mut pk = vec![0x0E];
    pk.extend_from_slice(&[4u8; 64]);
    assert!(matches!(decode_packet(&pk), Some(Event::PrivateKey(k)) if k == [4u8; 64]));
}

#[test]
fn classify_telemetry_response() {
    let mut p = vec![0x8B, 0, 1, 2, 3, 4, 5, 6];
    p.extend_from_slice(&[0x01, 0x67, 0x00, 0xFA]);
    match decode_packet(&p) {
        Some(Event::TelemetryResponse(t)) => {
            assert_eq!(t.readings.len(), 1);
            assert_eq!(t.readings[0].value, TelemetryValue::Temperature(Scaled::new(250, 10)));
        }
        other => panic!("unexpected {other:?}"),
    }
    match decode_packet(&[0x8B, 0, 1]) {
        Some(Event::TelemetryResponse(t)) => assert!(t.readings.is_empty()),
        other => panic!("unexpected {other:?}"),
    }
}

#[test]
fn contact_cache_last_write_wins() {
    let mut s = Session::new(16);
    assert!(s.process_frame(&contact_packet(0x03, 7, b"first", 1)));
    assert!(s.process_frame(&contact_packet(0x8A, 7, b"second", 2)));
    assert!(s.process_frame(&contact_packet(0x03, 8, b"other", 3)));
    let cs = s.state.contacts();
    assert_eq!(cs.len(), 2);
    assert_eq!(cs[0].name, "second");
    assert_eq!(cs[0].last_advert, 2);
    assert_eq!(cs[1].name, "other");
    let key = cs[0].public_key;
    assert_eq!(s.state.get_contact(&key).unwrap().name, "second");
    assert_eq!(s.hub.dispatched_count(), 3);
}

#[test]
fn session_caches_self_info_and_dispatches_every_frame() {
    let mut s = Session::new(4);
    let mut sub = s.hub.subscribe(None);
    assert!(s.state.self_info().is_none());
    let mut p = vec![0x05, 1, 20, 22];
    p.extend_from_slice(&[3u8; 32]);
    p.extend_from_slice(&[0u8; 8]);
    p.extend_from_slice(&[0, 0, 0, 0]);
    p.extend_from_slice(&[0u8; 8]);
    p.extend_from_slice(&[7, 5]);
    p.extend_from_slice(b"me");
    assert!(s.process_frame(&p));
    assert_eq!(s.state.self_info().unwrap().name, "me");
    assert!(!s.process_frame(&[]));
    assert!(s.process_frame(&[0x77]));
    assert!(matches!(s.hub.recv(&mut sub), Received::Event(e) if matches!(*e, Event::SelfInfo(_))));
    assert!(matches!(s.hub.recv(&mut sub), Received::Event(e) if matches!(*e, Event::Raw { packet_type: 0x77, .. })));
    assert!(matches!(s.hub.recv(&mut sub), Received::Empty));
}

#[test]
fn event_packet_types() {
    assert_eq!(Event::Success.packet_type(), Some(PacketType::Success));
    assert_eq!(ack(1).packet_type(), Some(PacketType::Ack));
    assert_eq!(Event::Connected.packet_type(), None);
    assert_eq!(Event::Raw { packet_type: 1, data: vec![] }.packet_type(), None);
}
