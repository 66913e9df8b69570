use meshcore::scaled::Scaled;
use meshcore::telemetry::{Telemetry, TelemetryValue};

fn value(s: Scaled) -> f64 {
    s.raw as f64 / s.scale as f64
}

#[test]
fn test_parse_temperature() {
    let data = [0x01, 0x67, 0x00, 0xFA];
    let telemetry = Telemetry::parse_lpp(&data);

    assert_eq!(telemetry.readings.len(), 1);
    assert_eq!(telemetry.readings[0].channel, 1);
    assert_eq!(telemetry.readings[0].lpp_type, 103);

    if let TelemetryValue::Temperature(t) = telemetry.readings[0].value {
        assert!((value(t) - 25.0).abs() < 0.01);
    } else {
        panic!("Expected temperature value");
    }
}

#[test]
fn test_parse_humidity() {
    let data = [0x02, 0x68, 0x64];
    let telemetry = Telemetry::parse_lpp(&data);

    assert_eq!(telemetry.humidity().map(value), Some(50.0));
}

#[test]
fn test_parse_multiple() {
    let data = [0x01, 0x67, 0x00, 0xFA, 0x02, 0x68, 0x64];
    let telemetry = Telemetry::parse_lpp(&data);

    assert_eq!(telemetry.readings.len(), 2);
    assert!((value(telemetry.temperature().unwrap()) - 25.0).abs() < 0.01);
    assert!((value(telemetry.humidity().unwrap()) - 50.0).abs() < 0.01);
}

#[test]
fn lpp_exact_scales() {
    let t = Telemetry::parse_lpp(&[0x01, 0x67, 0x00, 0xFA, 0x02, 0x68, 0x64]);
    assert_eq!(t.readings[0].value, TelemetryValue::Temperature(Scaled::new(250, 10)));
    assert_eq!(t.readings[1].channel, 2);
    assert_eq!(t.readings[1].lpp_type, 104);
    assert_eq!(t.readings[1].value, TelemetryValue::Humidity(Scaled::new(100, 2)));
}

#[test]
fn lpp_negative_and_multi_axis() {
    let data = [
        3, 103, 0xFF, 0x9C, // -10.0 C
        4, 113, 0x03, 0xE8, 0xFC, 0x18, 0x00, 0x00, // 1.0, -1.0, 0 g
        5, 2, 0x01, 0x2C, // 3.00 analog
        6, 116, 0x01, 0x4A, // 3.30 V
    ];
    let t = Telemetry::parse_lpp(&data);
    assert_eq!(t.readings.len(), 4);
    assert_eq!(t.readings[0].value, TelemetryValue::Temperature(Scaled::new(-100, 10)));
    assert_eq!(
        t.readings[1].value,
        TelemetryValue::Accelerometer {
            x: Scaled::new(1000, 1000),
            y: Scaled::new(-1000, 1000),
            z: Scaled::new(0, 1000)
        }
    );
    assert_eq!(t.readings[2].value, TelemetryValue::AnalogInput(Scaled::new(300, 100)));
    assert!((value(t.voltage().unwrap()) - 3.3).abs() < 1e-9);
}

#[test]
fn lpp_gps_sign_extension() {
    let data = [1, 136, 0x06, 0x76, 0x5F, 0xF2, 0x96, 0x0A, 0x00, 0x03, 0xE8];
    let t = Telemetry::parse_lpp(&data);
    let (lat, lon, alt) = t.gps().unwrap();
    assert_eq!(lat, Scaled::new(0x06765F, 10000));
    assert_eq!(lon, Scaled::new(0xF2960A - 0x1000000, 10000));
    assert_eq!(alt, Scaled::new(1000, 100));
    assert!((value(lat) - 42.3519).abs() < 1e-9);
    assert!((value(lon) + 87.9094).abs() < 1e-9);
    assert!((value(alt) - 10.0).abs() < 1e-9);
}

#[test]
fn lpp_truncated_record_is_dropped() {
    let t = Telemetry::parse_lpp(&[0x01, 0x67, 0x00, 0xFA, 0x02, 0x67, 0x01]);
    assert_eq!(t.readings.len(), 1);
    let t = Telemetry::parse_lpp(&[0x01]);
    assert!(t.readings.is_empty());
    assert!(Telemetry::parse_lpp(&[]).readings.is_empty());
    assert_eq!(Telemetry::new().readings.len(), 0);
}

#[test]
fn lpp_unknown_type_swallows_the_rest() {
    let t = Telemetry::parse_lpp(&[0x09, 0xEE, 1, 2, 3, 0x01, 0x67, 0x00, 0xFA]);
    assert_eq!(t.readings.len(), 1);
    assert_eq!(t.readings[0].lpp_type, 0xEE);
    assert_eq!(
        t.readings[0].value,
        TelemetryValue::Generic(vec![1, 2, 3, 0x01, 0x67, 0x00, 0xFA])
    );
    assert_eq!(t.temperature(), None);
    let t = Telemetry::parse_lpp(&[0x09, 0xEE]);
    assert!(t.readings.is_empty());
}

#[test]
fn lpp_integer_kinds() {
    let data = [
        1, 0, 1, 2, 1, 0, 3, 101, 0x01, 0x00, 4, 102, 1, 5, 118, 0, 0, 0x03, 0xE8, 6, 120, 77, 7,
        135, 10, 20, 30, 8, 133, 0x65, 0x00, 0x00, 0x00,
    ];
    let t = Telemetry::parse_lpp(&data);
    let vals: Vec<TelemetryValue> = t.readings.iter().map(|r| r.value.clone()).collect();
    assert_eq!(
        vals,
        vec![
            TelemetryValue::DigitalInput(1),
            TelemetryValue::DigitalOutput(0),
            TelemetryValue::Illuminance(256),
            TelemetryValue::Presence(1),
            TelemetryValue::Frequency(1000),
            TelemetryValue::Percentage(77),
            TelemetryValue::Color { r: 10, g: 20, b: 30 },
            TelemetryValue::UnixTime(0x6500_0000),
        ]
    );
}

#[test]
fn readings_grouped_by_channel() {
    let t = Telemetry::parse_lpp(&[1, 0, 1, 2, 0, 0, 1, 102, 1]);
    let m = t.by_channel();
    assert_eq!(m.len(), 2);
    assert_eq!(m[&1], vec![0, 2]);
    assert_eq!(m[&2], vec![1]);
}
