use meshcore::clock::{current_timestamp, timestamp_from_secs};
use meshcore::contact::{ContactFlags, ContactType, PublicKey};
use meshcore::device::{RadioConfig, TelemetryMode};
use meshcore::error::Error;
use meshcore::message::TextType;
use meshcore::scaled::Scaled;
use meshcore::stats::StatsType;
use meshcore::transport::{SerialConfig, DEFAULT_BAUD_RATE};
use std::time::Duration;

#[test]
fn test_public_key_from_bytes() {
    let bytes = [0u8; 32];
    let key = PublicKey::from_bytes(&bytes);
    assert_eq!(key.as_bytes(), &[0u8; 32]);
}

#[test]
fn test_public_key_prefix() {
    let mut bytes = [0u8; 32];
    bytes[0] = 0xAB;
    bytes[1] = 0xCD;
    bytes[5] = 0xEF;
    let key = PublicKey::from_bytes(&bytes);
    let prefix = key.prefix();
    assert_eq!(prefix[0], 0xAB);
    assert_eq!(prefix[1], 0xCD);
    assert_eq!(prefix[5], 0xEF);
}

#[test]
fn test_public_key_hex() {
    let mut bytes = [0u8; 32];
    bytes[0] = 0xAB;
    let key = PublicKey::from_bytes(&bytes);
    let hex = key.to_hex();
    assert_eq!(&hex[..2], "ab");

    let parsed = PublicKey::from_hex(&hex).unwrap();
    assert_eq!(parsed.as_bytes(), key.as_bytes());
}

#[test]
fn public_key_hex_is_lower_case_and_full_length() {
    let bytes: Vec<u8> = (0..32).map(|i| (i * 9) as u8).collect();
    let key = PublicKey::from_bytes(&bytes);
    let hex = key.to_hex();
    assert_eq!(hex.len(), 64);
    assert!(hex.starts_with("0009121b242d"));
    let upper = hex.to_uppercase();
    assert_eq!(PublicKey::from_hex(&upper).unwrap(), key);
}

#[test]
fn public_key_from_bad_hex() {
    assert!(matches!(PublicKey::from_hex("abc"), Err(Error::InvalidPublicKey { .. })));
    assert!(matches!(PublicKey::from_hex("zz"), Err(Error::InvalidPublicKey { .. })));
    assert!(matches!(PublicKey::from_hex("abcd"), Err(Error::InvalidPublicKey { .. })));
}

#[test]
fn public_key_try_from_bytes() {
    assert!(PublicKey::try_from_bytes(&[1u8; 31]).is_none());
    assert!(PublicKey::try_from_bytes(&[1u8; 33]).is_none());
    assert_eq!(PublicKey::try_from_bytes(&[1u8; 32]).unwrap().as_bytes(), &[1u8; 32]);
}

#[test]
fn test_contact_flags() {
    let flags = ContactFlags::from_byte(0b11);
    assert!(flags.contains(ContactFlags::trusted()));
    assert!(flags.contains(ContactFlags::hidden()));

    let flags = ContactFlags::from_byte(0b01);
    assert!(flags.contains(ContactFlags::trusted()));
    assert!(!flags.contains(ContactFlags::hidden()));
    assert!(flags.contains(ContactFlags::none()));
    assert_eq!(flags.as_byte(), 1);
}

#[test]
fn test_contact_type() {
    assert_eq!(ContactType::from_byte(0), ContactType::Unknown);
    assert_eq!(ContactType::from_byte(1), ContactType::Node);
    assert_eq!(ContactType::from_byte(2), ContactType::Repeater);
    assert_eq!(ContactType::from_byte(3), ContactType::Room);
    assert_eq!(ContactType::from_byte(99), ContactType::Unknown);
}

#[test]
fn text_and_stats_types_from_byte() {
    assert_eq!(TextType::from_byte(0), TextType::Plain);
    assert_eq!(TextType::from_byte(1), TextType::Command);
    assert_eq!(TextType::from_byte(2), TextType::Signed);
    assert_eq!(TextType::from_byte(7), TextType::Plain);
    assert_eq!(StatsType::from_byte(0), Some(StatsType::Core));
    assert_eq!(StatsType::from_byte(1), Some(StatsType::Radio));
    assert_eq!(StatsType::from_byte(2), Some(StatsType::Packets));
    assert_eq!(StatsType::from_byte(3), None);
}

#[test]
fn telemetry_mode_bits() {
    let m = TelemetryMode::from_byte(0b0011_1001);
    assert_eq!((m.env, m.loc, m.base), (3, 2, 1));
    assert_eq!(m.to_byte(), 0b0011_1001);
    let wide = TelemetryMode { env: 0xFF, loc: 0, base: 0x06 };
    assert_eq!(wide.to_byte(), 0b0011_0010);
}

#[test]
fn radio_config_default() {
    let r = RadioConfig::default();
    assert_eq!(r.frequency_mhz, Scaled::new(868_000, 1000));
    assert_eq!(r.bandwidth_khz, Scaled::new(125_000, 1000));
    assert_eq!(r.spreading_factor, 7);
    assert_eq!(r.coding_rate, 5);
}

#[test]
fn test_serial_config_defaults() {
    let config = SerialConfig::new("/dev/ttyUSB0");
    assert_eq!(config.port, "/dev/ttyUSB0");
    assert_eq!(config.baud_rate, DEFAULT_BAUD_RATE);
    assert_eq!(config.connection_delay, Duration::from_millis(300));
}

#[test]
fn test_serial_config_builder() {
    let config = SerialConfig::new("/dev/ttyUSB0")
        .baud_rate(9600)
        .connection_delay(Duration::from_secs(1));
    assert_eq!(config.baud_rate, 9600);
    assert_eq!(config.connection_delay, Duration::from_secs(1));
}

#[test]
fn clock_timestamps() {
    assert_eq!(timestamp_from_secs(None), 0);
    assert_eq!(timestamp_from_secs(Some(1_700_000_000)), 1_700_000_000);
    assert_eq!(timestamp_from_secs(Some(u64::MAX)), u32::MAX);
    assert!(current_timestamp() > 1_600_000_000);
}
