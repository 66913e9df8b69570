use meshcore::error::Error;
use meshcore::message::TextType;
use meshcore::parser::{
    parse_battery, parse_channel, parse_channel_message, parse_contact, parse_contact_message,
    parse_coord, parse_core_stats, parse_device_info, parse_device_status, parse_packet_stats,
    parse_radio_stats, parse_self_info,
};
use meshcore::scaled::Scaled;
use meshcore::text::parse_string;
use meshcore::ContactType;

fn value(s: Scaled) -> f64 {
    s.raw as f64 / s.scale as f64
}

#[test]
fn test_parse_string() {
    assert_eq!(parse_string(b"hello\0world", 11), "hello");
    assert_eq!(parse_string(b"hello", 5), "hello");
    assert_eq!(parse_string(b"hello", 3), "hel");
}

#[test]
fn test_parse_coord() {
    assert_eq!(parse_coord(0), None);
    assert!((value(parse_coord(51_500_000).unwrap()) - 51.5).abs() < 0.0001);
    assert!((value(parse_coord(-1_278_000).unwrap()) - (-1.278)).abs() < 0.0001);
}

#[test]
fn coordinate_keeps_exact_millionths() {
    assert_eq!(parse_coord(51_500_000), Some(Scaled::new(51_500_000, 1_000_000)));
    assert_eq!(parse_coord(-1), Some(Scaled::new(-1, 1_000_000)));
}

#[test]
fn test_parse_battery() {
    let mut data = vec![0xD4, 0x0D];
    data.extend_from_slice(&1024u32.to_le_bytes());
    data.extend_from_slice(&4096u32.to_le_bytes());
    let battery = parse_battery(&data).unwrap();
    assert_eq!(battery.millivolts, 3540);
    assert_eq!(battery.used_kb, Some(1024));
    assert_eq!(battery.total_kb, Some(4096));
}

#[test]
fn test_parse_battery_no_storage() {
    let data = [0xD4, 0x0D];
    let battery = parse_battery(&data).unwrap();
    assert_eq!(battery.millivolts, 3540);
    assert_eq!(battery.used_kb, None);
    assert_eq!(battery.total_kb, None);
}

#[test]
fn battery_too_short_is_protocol_error() {
    assert!(matches!(parse_battery(&[0xD4]), Err(Error::Protocol { .. })));
}

#[test]
fn test_parse_channel() {
    let mut data = vec![0u8; 49];
    data[0] = 1;
    data[1..7].copy_from_slice(b"Public");
    data[33..49].copy_from_slice(&[1, 2, 3, 4, 5, 6, 7, 8, 9, 10, 11, 12, 13, 14, 15, 16]);

    let channel = parse_channel(&data).unwrap();
    assert_eq!(channel.index, 1);
    assert_eq!(channel.name, "Public");
    assert_eq!(channel.secret[0], 1);
    assert_eq!(channel.secret[15], 16);
}

#[test]
fn test_parse_channel_message() {
    let mut data = Vec::new();
    data.push(2);
    data.push(0);
    data.push(0);
    data.extend_from_slice(&1_234_567_890_u32.to_le_bytes());
    data.extend_from_slice(b"Hello");

    let msg = parse_channel_message(&data, false).unwrap();
    assert_eq!(msg.channel_index, 2);
    assert_eq!(msg.timestamp, 1_234_567_890);
    assert_eq!(msg.text, "Hello");
}

#[test]
fn newer_channel_message_carries_snr() {
    let mut data = vec![0xF6, 0, 0, 3, 0xFF, 1];
    data.extend_from_slice(&7u32.to_le_bytes());
    data.extend_from_slice(b"hi");
    let msg = parse_channel_message(&data, true).unwrap();
    assert_eq!(msg.signal.unwrap().snr, Scaled::new(-10, 4));
    assert_eq!(msg.channel_index, 3);
    assert_eq!(msg.path_len, -1);
    assert_eq!(msg.text_type, TextType::Command);
    assert_eq!(msg.timestamp, 7);
    assert_eq!(msg.text, "hi");
    assert!(parse_channel_message(&data[..9], true).is_err());
}

#[test]
fn signed_contact_message_splits_signature() {
    let mut data = vec![1, 2, 3, 4, 5, 6, 2, 2];
    data.extend_from_slice(&99u32.to_le_bytes());
    data.extend_from_slice(&[0xAA, 0xBB, 0xCC, 0xDD]);
    data.extend_from_slice(b"signed text");
    let msg = parse_contact_message(&data, false).unwrap();
    assert_eq!(msg.sender_prefix, [1, 2, 3, 4, 5, 6]);
    assert_eq!(msg.path_len, 2);
    assert_eq!(msg.text_type, TextType::Signed);
    assert_eq!(msg.timestamp, 99);
    assert_eq!(msg.signature, Some(vec![0xAA, 0xBB, 0xCC, 0xDD]));
    assert_eq!(msg.text, "signed text");
    assert!(msg.signal.is_none());
}

#[test]
fn plain_contact_message_and_lossy_text() {
    let mut data = vec![9, 9, 9, 9, 9, 9, 0, 0];
    data.extend_from_slice(&5u32.to_le_bytes());
    data.extend_from_slice(&[b'o', b'k', 0xFF]);
    let msg = parse_contact_message(&data, false).unwrap();
    assert_eq!(msg.signature, None);
    assert_eq!(msg.text, "ok\u{FFFD}");
    assert!(parse_contact_message(&data[..11], false).is_err());
    assert!(parse_contact_message(&data[..14], true).is_err());
}

#[test]
fn test_parse_core_stats() {
    let mut data = vec![0u8; 9];
    data[0..2].copy_from_slice(&4200u16.to_le_bytes());
    data[2..6].copy_from_slice(&3600u32.to_le_bytes());
    data[6..8].copy_from_slice(&5u16.to_le_bytes());
    data[8] = 10;

    let stats = parse_core_stats(&data).unwrap();
    assert_eq!(stats.battery_mv, 4200);
    assert_eq!(stats.uptime_secs, 3600);
    assert_eq!(stats.errors, 5);
    assert_eq!(stats.queue_len, 10);
}

#[test]
fn test_parse_radio_stats() {
    let mut data = vec![0u8; 12];
    data[0..2].copy_from_slice(&(-100i16).to_le_bytes());
    data[2] = (-80i8).to_ne_bytes()[0];
    data[3] = 40u8;
    data[4..8].copy_from_slice(&1000u32.to_le_bytes());
    data[8..12].copy_from_slice(&2000u32.to_le_bytes());

    let stats = parse_radio_stats(&data).unwrap();
    assert_eq!(stats.noise_floor, -100);
    assert_eq!(stats.rssi, -80);
    assert!((value(stats.snr) - 10.0).abs() < 0.01);
    assert_eq!(stats.tx_airtime_secs, 1000);
    assert_eq!(stats.rx_airtime_secs, 2000);
}

#[test]
fn test_parse_packet_stats() {
    let mut data = vec![0u8; 24];
    data[0..4].copy_from_slice(&100u32.to_le_bytes());
    data[4..8].copy_from_slice(&50u32.to_le_bytes());
    data[8..12].copy_from_slice(&20u32.to_le_bytes());
    data[12..16].copy_from_slice(&30u32.to_le_bytes());
    data[16..20].copy_from_slice(&40u32.to_le_bytes());
    data[20..24].copy_from_slice(&60u32.to_le_bytes());

    let stats = parse_packet_stats(&data).unwrap();
    assert_eq!(stats.received, 100);
    assert_eq!(stats.sent, 50);
    assert_eq!(stats.flood_tx, 20);
    assert_eq!(stats.direct_tx, 30);
    assert_eq!(stats.flood_rx, 40);
    assert_eq!(stats.direct_rx, 60);
}

fn self_info_body() -> Vec<u8> {
    let mut d = vec![1, 20, 22];
    d.extend_from_slice(&[7u8; 32]);
    d.extend_from_slice(&51_500_000i32.to_le_bytes());
    d.extend_from_slice(&0i32.to_le_bytes());
    d.extend_from_slice(&[1, 2, 0b0010_0111, 1]);
    d.extend_from_slice(&869_525u32.to_le_bytes());
    d.extend_from_slice(&250_000u32.to_le_bytes());
    d.extend_from_slice(&[11, 5]);
    d.extend_from_slice(b"node\0junk");
    d
}

#[test]
fn self_info_fields() {
    let d = self_info_body();
    let info = parse_self_info(&d).unwrap();
    assert_eq!(info.advert_type, 1);
    assert_eq!(info.tx_power, 20);
    assert_eq!(info.max_tx_power, 22);
    assert_eq!(info.public_key.as_bytes(), &[7u8; 32]);
    assert_eq!(info.latitude, Some(Scaled::new(51_500_000, 1_000_000)));
    assert_eq!(info.longitude, None);
    assert_eq!(info.multi_acks, 1);
    assert_eq!(info.advert_loc_policy, 2);
    assert_eq!((info.telemetry_mode.env, info.telemetry_mode.loc, info.telemetry_mode.base), (2, 1, 3));
    assert!(info.manual_add_contacts);
    assert!((value(info.radio.frequency_mhz) - 869.525).abs() < 1e-9);
    assert!((value(info.radio.bandwidth_khz) - 250.0).abs() < 1e-9);
    assert_eq!(info.radio.spreading_factor, 11);
    assert_eq!(info.radio.coding_rate, 5);
    assert_eq!(info.name, "node");
}

#[test]
fn self_info_shorter_than_radio_fields_is_rejected() {
    let d = self_info_body();
    assert!(parse_self_info(&d[..57]).is_ok());
    assert!(matches!(parse_self_info(&d[..56]), Err(Error::Protocol { .. })));
    assert!(parse_self_info(&d[..52]).is_err());
}

#[test]
fn device_info_old_and_new_firmware() {
    let old = parse_device_info(&[2, 9, 9]).unwrap();
    assert_eq!(old.firmware_version, 2);
    assert_eq!(old.max_contacts, None);
    assert_eq!(old.build, None);

    let mut d = vec![3u8, 50, 8];
    d.extend_from_slice(&123456u32.to_le_bytes());
    let mut build = [0u8; 12];
    build[..5].copy_from_slice(b"b2024");
    d.extend_from_slice(&build);
    let mut model = [0u8; 40];
    model[..6].copy_from_slice(b"T-Beam");
    d.extend_from_slice(&model);
    let mut ver = [0u8; 20];
    ver[..5].copy_from_slice(b"1.9.0");
    d.extend_from_slice(&ver);
    let info = parse_device_info(&d).unwrap();
    assert_eq!(info.max_contacts, Some(100));
    assert_eq!(info.max_channels, Some(8));
    assert_eq!(info.ble_pin, Some(123456));
    assert_eq!(info.build.as_deref(), Some("b2024"));
    assert_eq!(info.model.as_deref(), Some("T-Beam"));
    assert_eq!(info.version.as_deref(), Some("1.9.0"));

    let short = parse_device_info(&d[..78]).unwrap();
    assert_eq!(short.max_contacts, None);
    assert!(matches!(parse_device_info(&[]), Err(Error::Protocol { .. })));
}

fn contact_body(key: u8, name: &[u8], path_len: i8, last_advert: u32) -> Vec<u8> {
    let mut d = vec![key; 32];
    d.push(2);
    d.push(0b01);
    d.push(path_len as u8);
    let mut path = [0u8; 64];
    for (i, p) in path.iter_mut().enumerate() {
        *p = i as u8 + 1;
    }
    d.extend_from_slice(&path);
    let mut n = [0u8; 32];
    n[..name.len()].copy_from_slice(name);
    d.extend_from_slice(&n);
    d.extend_from_slice(&last_advert.to_le_bytes());
    d.extend_from_slice(&(-33_900_000i32).to_le_bytes());
    d.extend_from_slice(&151_200_000i32.to_le_bytes());
    d.extend_from_slice(&777u32.to_le_bytes());
    d
}

#[test]
fn contact_fields_and_path_clamping() {
    let d = contact_body(5, b"alice", 3, 1000);
    assert_eq!(d.len(), 147);
    let c = parse_contact(&d).unwrap();
    assert_eq!(c.public_key.as_bytes(), &[5u8; 32]);
    assert_eq!(c.device_type, ContactType::Repeater);
    assert_eq!(c.flags.as_byte(), 1);
    assert_eq!(c.out_path_len, 3);
    assert_eq!(c.out_path, vec![1, 2, 3]);
    assert_eq!(c.name, "alice");
    assert_eq!(c.last_advert, 1000);
    assert_eq!(c.latitude, Some(Scaled::new(-33_900_000, 1_000_000)));
    assert_eq!(c.longitude, Some(Scaled::new(151_200_000, 1_000_000)));
    assert_eq!(c.last_modified, 777);
    assert!(!c.is_flood());

    let flood = parse_contact(&contact_body(5, b"a", -1, 0)).unwrap();
    assert!(flood.is_flood());
    assert!(flood.out_path.is_empty());
    let long = parse_contact(&contact_body(5, b"a", 100, 0)).unwrap();
    assert_eq!(long.out_path.len(), 64);
    assert!(matches!(parse_contact(&d[..146]), Err(Error::Protocol { .. })));
}

#[test]
fn device_status_fields() {
    let mut d = vec![1, 2, 3, 4, 5, 6];
    d.extend_from_slice(&4100u16.to_le_bytes());
    d.extend_from_slice(&3u16.to_le_bytes());
    d.extend_from_slice(&(-110i16).to_le_bytes());
    d.extend_from_slice(&(-60i16).to_le_bytes());
    for v in 1..=8u32 {
        d.extend_from_slice(&(v * 10).to_le_bytes());
    }
    d.extend_from_slice(&2u16.to_le_bytes());
    d.extend_from_slice(&(-22i16).to_le_bytes());
    d.extend_from_slice(&4u16.to_le_bytes());
    d.extend_from_slice(&6u16.to_le_bytes());
    d.extend_from_slice(&900u32.to_le_bytes());
    assert_eq!(d.len(), 58);
    let s = parse_device_status(&d).unwrap();
    assert_eq!(s.pubkey_prefix, [1, 2, 3, 4, 5, 6]);
    assert_eq!(s.battery_mv, 4100);
    assert_eq!(s.tx_queue_len, 3);
    assert_eq!(s.noise_floor, -110);
    assert_eq!(s.last_rssi, -60);
    assert_eq!(s.packets_received, 10);
    assert_eq!(s.recv_direct, 80);
    assert_eq!(s.full_events, 2);
    assert_eq!(s.last_snr, Scaled::new(-22, 4));
    assert!((value(s.last_snr) + 5.5).abs() < 1e-9);
    assert_eq!(s.direct_dups, 4);
    assert_eq!(s.flood_dups, 6);
    assert_eq!(s.rx_airtime_secs, 900);
    assert!(parse_device_status(&d[..57]).is_err());
}

#[test]
fn signed_message_with_exactly_four_trailing_bytes() {
    let mut data = vec![1, 2, 3, 4, 5, 6, 0, 2];
    data.extend_from_slice(&99u32.to_le_bytes());
    data.extend_from_slice(&[0xAA, 0xBB, 0xCC, 0xDD]);
    let msg = parse_contact_message(&data, false).unwrap();
    assert_eq!(msg.signature, Some(vec![0xAA, 0xBB, 0xCC, 0xDD]));
    assert_eq!(msg.text, "");

    let short = parse_contact_message(&data[..15], false).unwrap();
    assert_eq!(short.signature, None);
    assert_eq!(short.text, "\u{FFFD}\u{FFFD}\u{FFFD}");
}
