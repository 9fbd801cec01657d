use lunartick::errors::{catch_os_error, is_fatal};
use lunartick::sampler::collect_samples;
use lunartick::{Clock, DateTimeFormat, LunartickError, NTPResult};

#[test]
fn rfc3339_parse_extracts_the_instant() {
    let c = Clock::from_rfc3339("2021-03-04T05:06:07+00:00".to_string()).unwrap();
    assert_eq!(c.get_timestamp(), 1_614_834_367);
    assert_eq!(c.nanos, 0);
    assert_eq!(c.offset_secs, 0);
}

#[test]
fn rfc3339_parse_keeps_the_timezone_offset() {
    let c = Clock::from_rfc3339("2021-03-04T05:06:07.250+02:00".to_string()).unwrap();
    // The instant itself is in UTC; the offset is carried separately.
    assert_eq!(c.get_timestamp(), 1_614_834_367 - 2 * 3600);
    assert_eq!(c.nanos, 250_000_000);
    assert_eq!(c.offset_secs, 7200);
}

#[test]
fn rfc3339_round_trip_reproduces_the_instant() {
    let c = Clock::from_rfc3339("2021-03-04T05:06:07+00:00".to_string()).unwrap();
    let text = c.get_rfc3339();
    let again = Clock::from_rfc3339(text).unwrap();
    assert_eq!(again.get_timestamp(), c.get_timestamp());
    assert_eq!(again.nanos, c.nanos);
    assert_eq!(again.offset_secs, c.offset_secs);
}

#[test]
fn rfc2822_round_trip_reproduces_the_instant() {
    let c = Clock::from_rfc2822("Thu, 04 Mar 2021 05:06:07 +0000".to_string()).unwrap();
    assert_eq!(c.get_timestamp(), 1_614_834_367);
    let text = c.get_rfc2822();
    assert_eq!(text, "Thu, 4 Mar 2021 05:06:07 +0000");
    let again = Clock::from_rfc2822(text).unwrap();
    assert_eq!(again.get_timestamp(), c.get_timestamp());
    assert_eq!(again.offset_secs, c.offset_secs);
}

#[test]
fn malformed_text_names_the_format() {
    let r = Clock::from_rfc3339("yesterday-ish".to_string());
    assert!(matches!(
        r,
        Err(LunartickError::ParseDateTimeError(DateTimeFormat::RFC3339))
    ));
    let r = Clock::from_rfc2822("2021-03-04T05:06:07+00:00".to_string());
    assert!(matches!(
        r,
        Err(LunartickError::ParseDateTimeError(DateTimeFormat::RFC2822))
    ));
}

#[test]
fn debug_rendering_shows_local_time_and_offset() {
    let c = Clock::from_rfc3339("2021-03-04T05:06:07+02:00".to_string()).unwrap();
    assert_eq!(c.to_string(), "2021-03-04 05:06:07 +02:00");
}

#[test]
fn plus_millis_carries_into_seconds() {
    let c = Clock::new(100, 999_000_000, 0).plus_millis(2);
    assert_eq!(c.secs, 101);
    assert_eq!(c.nanos, 1_000_000);
    let back = c.plus_millis(-2);
    assert_eq!(back.secs, 100);
    assert_eq!(back.nanos, 999_000_000);
}

#[test]
fn plus_millis_borrows_across_seconds() {
    let c = Clock::new(0, 0, 3600).plus_millis(-1);
    assert_eq!(c.secs, -1);
    assert_eq!(c.nanos, 999_000_000);
    assert_eq!(c.offset_secs, 3600);
}

#[test]
fn now_reads_a_plausible_instant() {
    let c = Clock::now();
    // Any run of this test happens well after 2020 and before year 3000.
    assert!(c.get_timestamp() > 1_600_000_000);
    assert!(c.get_timestamp() < 32_500_000_000);
    let shifted = Clock::now_with_offset(8);
    assert!(shifted.get_timestamp() >= c.get_timestamp() - 1);
}

#[test]
fn catch_os_error_maps_the_code() {
    assert!(catch_os_error(Some(0), "ignored".to_string()).is_ok());
    assert!(catch_os_error(None, "ignored".to_string()).is_ok());
    let r = catch_os_error(Some(1), "Operation not permitted".to_string());
    match r {
        Err(LunartickError::SetError(m)) => assert_eq!(m, "Operation not permitted"),
        _ => panic!("expected a SetError"),
    }
}

#[test]
fn fatality_classification_per_variant() {
    assert!(is_fatal(&LunartickError::ConnectionError));
    assert!(is_fatal(&LunartickError::ParseTimestampError));
    assert!(!is_fatal(&LunartickError::IO("timeout".to_string())));
    assert!(!is_fatal(&LunartickError::SetError("no".to_string())));
    assert!(!is_fatal(&LunartickError::ParseDateTimeError(DateTimeFormat::RFC3339)));
}

#[test]
fn error_messages_are_stable() {
    assert_eq!(
        LunartickError::ConnectionError.message(),
        "error connecting to server"
    );
    assert_eq!(
        LunartickError::ParseTimestampError.message(),
        "error parsing timestamp"
    );
    assert_eq!(LunartickError::SetError("boom".to_string()).message(), "boom");
}

#[test]
fn end_to_end_one_server_answers_one_times_out() {
    // Server s1 answers with a 40 ms round trip, s2 times out.
    let s1_sample = NTPResult { t1: 0, t2: 0, t3: 0, t4: 40_000_000 };
    let results = collect_samples(
        vec!["s1".to_string(), "s2".to_string()],
        vec![Ok(s1_sample), Err(LunartickError::IO("timed out".to_string()))],
    )
    .unwrap();
    assert!(results.samples[0].is_some());
    assert!(results.samples[1].is_none());
    // The combined estimate is s1's offset alone: 40 / 2 = 20 ms.
    let offset = results.get_time_millis().unwrap();
    assert_eq!(offset, 20);
    // The corrected clock moves by exactly the combined offset.
    let base = Clock::new(1_614_834_367, 0, 0);
    let corrected = base.plus_millis(offset);
    assert_eq!(corrected.secs, 1_614_834_367);
    assert_eq!(corrected.nanos, 20_000_000);
}
