use satlink::telemetry::{Telemetry, TELEMETRY_SIZE};

fn sample() -> Telemetry {
    Telemetry { timestamp_ms: 0x0102_0304_0506_0708, temperature: -41, battery_mv: 2999, antenna_angle: -90 }
}

#[test]
fn round_trip_reproduces_every_field() {
    let t = sample();
    let bytes = t.to_bytes();
    assert_eq!(bytes.len(), TELEMETRY_SIZE);
    assert_eq!(Telemetry::from_bytes(&bytes), Some(t));
}

#[test]
fn wire_image_is_little_endian_in_field_order() {
    let bytes = sample().to_bytes();
    assert_eq!(
        bytes,
        [0x08, 0x07, 0x06, 0x05, 0x04, 0x03, 0x02, 0x01, 0xD7, 0xFF, 0xB7, 0x0B, 0xA6, 0xFF]
    );
}

#[test]
fn wire_image_matches_the_standard_byte_order_functions() {
    let t = Telemetry { timestamp_ms: 1_700_000_000_123, temperature: 25, battery_mv: 7998, antenna_angle: 3 };
    let mut expected = Vec::new();
    expected.extend_from_slice(&t.timestamp_ms.to_le_bytes());
    expected.extend_from_slice(&t.temperature.to_le_bytes());
    expected.extend_from_slice(&t.battery_mv.to_le_bytes());
    expected.extend_from_slice(&t.antenna_angle.to_le_bytes());
    assert_eq!(t.to_bytes().to_vec(), expected);
}

#[test]
fn round_trip_at_the_ends_of_every_range() {
    let extremes = [
        Telemetry { timestamp_ms: 0, temperature: i16::MIN, battery_mv: 0, antenna_angle: i16::MIN },
        Telemetry { timestamp_ms: u64::MAX, temperature: i16::MAX, battery_mv: u16::MAX, antenna_angle: i16::MAX },
        Telemetry { timestamp_ms: 1, temperature: -1, battery_mv: 1, antenna_angle: -1 },
        Telemetry { timestamp_ms: u64::MAX - 1, temperature: 0, battery_mv: 0x8000, antenna_angle: 0 },
    ];
    for t in extremes {
        assert_eq!(Telemetry::from_bytes(&t.to_bytes()), Some(t));
    }
}

#[test]
fn round_trip_over_a_sweep_of_values() {
    let mut ts: u64 = 1;
    let mut temp: i16 = i16::MIN;
    loop {
        let t = Telemetry {
            timestamp_ms: ts,
            temperature: temp,
            battery_mv: (temp as i32 + 40000) as u16,
            antenna_angle: temp.wrapping_mul(3),
        };
        assert_eq!(Telemetry::from_bytes(&t.to_bytes()), Some(t));
        ts = ts.wrapping_mul(6364136223846793005).wrapping_add(1442695040888963407);
        if temp > i16::MAX - 257 {
            break;
        }
        temp += 257;
    }
}

#[test]
fn buffers_shorter_than_fourteen_bytes_do_not_decode() {
    let bytes = sample().to_bytes();
    for len in 0..TELEMETRY_SIZE {
        assert_eq!(Telemetry::from_bytes(&bytes[..len]), None);
    }
}

#[test]
fn empty_buffer_does_not_decode() {
    assert_eq!(Telemetry::from_bytes(&[]), None);
}

#[test]
fn bytes_past_the_fourteenth_are_ignored() {
    let t = sample();
    let mut long = t.to_bytes().to_vec();
    long.extend_from_slice(&[0xAA, 0xBB, 0xCC]);
    assert_eq!(Telemetry::from_bytes(&long), Some(t));
}

#[test]
fn decoding_reads_negative_values_from_twos_complement() {
    let bytes = [0, 0, 0, 0, 0, 0, 0, 0, 0x00, 0x80, 0xFF, 0xFF, 0xFF, 0x7F];
    assert_eq!(
        Telemetry::from_bytes(&bytes),
        Some(Telemetry { timestamp_ms: 0, temperature: i16::MIN, battery_mv: u16::MAX, antenna_angle: i16::MAX })
    );
}
