use imu_telemetry::serial_comms::CommandAccumulator;
use imu_telemetry::serial_comms::encode_report;
use imu_telemetry::serial_comms::parse_command;

#[test]
fn report_frame_layout() {
    let channels: Vec<u64> = vec![10.0f64.to_bits(), (-5.0f64).to_bits(), 0.0f64.to_bits()];
    let frame = encode_report(1.5f64.to_bits(), 4, &channels);
    assert_eq!(frame.len(), 35);
    let mut expected: Vec<u8> = Vec::new();
    expected.extend_from_slice(&1.5f64.to_be_bytes());
    expected.push(4);
    expected.extend_from_slice(&10.0f64.to_be_bytes());
    expected.extend_from_slice(&(-5.0f64).to_be_bytes());
    expected.extend_from_slice(&0.0f64.to_be_bytes());
    expected.extend_from_slice(b"\r\n");
    assert_eq!(frame, expected);
}

#[test]
fn report_frame_length_follows_channel_count() {
    let six: Vec<u64> = vec![0, 0, 0, 0, 0, 0];
    assert_eq!(encode_report(0, 1, &six).len(), 59);
    let none: Vec<u64> = Vec::new();
    let frame = encode_report(2.0f64.to_bits(), 3, &none);
    assert_eq!(frame.len(), 11);
    assert_eq!(&frame[0..8], &2.0f64.to_be_bytes());
    assert_eq!(frame[8], 3);
    assert_eq!(&frame[9..11], b"\r\n");
}

#[test]
fn parse_command_exact_frame() {
    let mut buf: Vec<u8> = Vec::new();
    buf.extend_from_slice(b"frq:");
    buf.extend_from_slice(&2.5f64.to_be_bytes());
    let r = parse_command(&buf);
    assert_eq!(r, 2.5f64.to_bits());
    assert_eq!(f64::from_bits(r), 2.5);
}

#[test]
fn parse_command_wrong_tag_is_ignored() {
    let mut buf: Vec<u8> = Vec::new();
    buf.extend_from_slice(b"abc:");
    buf.extend_from_slice(&2.5f64.to_be_bytes());
    assert_eq!(parse_command(&buf), 0);
    assert_eq!(f64::from_bits(parse_command(&buf)), 0.0);
}

#[test]
fn command_frame_parses_frequency() {
    let mut acc = CommandAccumulator::new();
    for &b in b"frq:".iter() {
        assert!(acc.accept_byte(b).is_none());
    }
    for &b in 2.5f64.to_be_bytes().iter() {
        assert!(acc.accept_byte(b).is_none());
    }
    let r = acc.accept_byte(b'\n');
    assert_eq!(r, Some(2.5f64.to_bits()));
    assert_eq!(f64::from_bits(r.unwrap()), 2.5);
}

#[test]
fn short_and_long_command_frames_give_default() {
    // eleven bytes before the newline
    let mut acc = CommandAccumulator::new();
    for &b in b"frq:".iter() {
        acc.accept_byte(b);
    }
    for &b in 2.5f64.to_be_bytes().iter().take(7) {
        acc.accept_byte(b);
    }
    let r = acc.accept_byte(b'\n');
    assert_eq!(r, Some(0));
    assert_eq!(f64::from_bits(r.unwrap()), 0.0);

    // thirteen bytes before the newline
    for &b in b"frq:".iter() {
        acc.accept_byte(b);
    }
    for &b in 2.5f64.to_be_bytes().iter() {
        acc.accept_byte(b);
    }
    acc.accept_byte(b'!');
    let r = acc.accept_byte(b'\n');
    assert_eq!(r, Some(0));
    assert_eq!(f64::from_bits(r.unwrap()), 0.0);
}

#[test]
fn inbound_overflow_discards_partial_line() {
    let mut acc = CommandAccumulator::new();
    let mut i: usize = 0;
    while i < 40 {
        assert!(acc.accept_byte(b'x').is_none());
        i += 1;
    }
    // whatever garbage survived the overflow is flushed by its newline
    assert_eq!(acc.accept_byte(b'\n'), Some(0));
    // and the stream keeps accepting: a fresh frame still parses
    for &b in b"frq:".iter() {
        acc.accept_byte(b);
    }
    for &b in 1.0f64.to_be_bytes().iter() {
        acc.accept_byte(b);
    }
    assert_eq!(acc.accept_byte(b'\n'), Some(1.0f64.to_bits()));
}
