use lunartick::{LunartickError, NTPMessage, NTPTimestamp};

#[test]
fn ntp_epoch_start_is_unix_epoch_offset() {
    let ts = NTPTimestamp { seconds: 2_208_988_800, fraction: 0 };
    assert_eq!(ts.to_unix_nanos(), 0);
}

#[test]
fn half_second_fraction_converts_exactly() {
    let ts = NTPTimestamp { seconds: 2_208_988_800, fraction: 0x8000_0000 };
    assert_eq!(ts.to_unix_nanos(), 500_000_000);
}

#[test]
fn from_unix_nanos_splits_seconds_and_fraction() {
    let ts = NTPTimestamp::from_unix_nanos(250_000_000);
    assert_eq!(ts.seconds, 2_208_988_800);
    assert_eq!(ts.fraction, 1_073_741_824);
}

#[test]
fn from_unix_nanos_handles_pre_unix_instants() {
    let ts = NTPTimestamp::from_unix_nanos(-1_000_000_000);
    assert_eq!(ts.seconds, 2_208_988_799);
    assert_eq!(ts.fraction, 0);
}

#[test]
fn codec_round_trip_within_one_nanosecond() {
    let cases: Vec<(u32, u32)> = vec![
        (0, 0),
        (2_208_988_800, 0x8000_0000),
        (3_900_000_000, 5),
        (4_294_967_295, 4_294_967_295),
        (1, 1_000_000),
    ];
    for (seconds, fraction) in cases {
        let ts = NTPTimestamp { seconds, fraction };
        let a = ts.to_unix_nanos();
        let back = NTPTimestamp::from_unix_nanos(a);
        assert_eq!(back.seconds, seconds);
        let a2 = back.to_unix_nanos();
        assert!(a - 1 <= a2 && a2 <= a, "instant drifted: {a} vs {a2}");
    }
}

#[test]
fn client_request_has_version_and_mode_in_byte_zero() {
    let msg = NTPMessage::client();
    assert_eq!(msg.data.len(), 48);
    assert_eq!(msg.data[0], 0x1b);
    for i in 1..48 {
        assert_eq!(msg.data[i], 0);
    }
}

#[test]
fn new_message_is_all_zero() {
    let msg = NTPMessage::new();
    assert_eq!(msg.data, vec![0u8; 48]);
}

#[test]
fn decode_reads_timestamps_at_fixed_offsets() {
    let mut data = vec![0u8; 48];
    // Receive timestamp at offset 32: seconds 0x01020304, fraction 0x05060708.
    data[32..40].copy_from_slice(&[1, 2, 3, 4, 5, 6, 7, 8]);
    // Transmit timestamp at offset 40: seconds 0xAABBCCDD, fraction 0x00000001.
    data[40..48].copy_from_slice(&[0xAA, 0xBB, 0xCC, 0xDD, 0, 0, 0, 1]);
    let msg = NTPMessage { data };
    let (rx, tx) = msg.decode_response().unwrap();
    assert_eq!(rx.seconds, 0x0102_0304);
    assert_eq!(rx.fraction, 0x0506_0708);
    assert_eq!(tx.seconds, 0xAABB_CCDD);
    assert_eq!(tx.fraction, 1);
    assert_eq!(msg.rx_time().unwrap(), rx);
    assert_eq!(msg.tx_time().unwrap(), tx);
}

#[test]
fn short_buffer_fails_to_decode() {
    let msg = NTPMessage { data: vec![0u8; 47] };
    assert!(matches!(msg.decode_response(), Err(LunartickError::ParseTimestampError)));
    assert!(matches!(msg.tx_time(), Err(LunartickError::ParseTimestampError)));
    let empty = NTPMessage { data: Vec::new() };
    assert!(matches!(empty.rx_time(), Err(LunartickError::ParseTimestampError)));
    assert!(matches!(empty.parse_timestamp(0), Err(LunartickError::ParseTimestampError)));
}
