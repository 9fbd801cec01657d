use lunartick::combiner::weighted_mean;
use lunartick::sampler::{collect_samples, outcome_to_entry};
use lunartick::{LunartickError, NTPClient, NTPResult};

fn ms(v: i64) -> i64 {
    v * 1_000_000
}

/// A sample whose round-trip delay is the given number of milliseconds.
fn sample_with_delay_ms(delay: i64) -> NTPResult {
    NTPResult { t1: 0, t2: 0, t3: 0, t4: ms(delay) }
}

#[test]
fn delay_and_offset_from_four_timestamps() {
    let s = NTPResult { t1: 0, t2: ms(100), t3: ms(110), t4: ms(220) };
    assert_eq!(s.delay(), 210);
    assert_eq!(s.offset(), 105);
}

#[test]
fn delay_may_be_negative_but_offset_never_is() {
    let s = NTPResult { t1: ms(50), t2: 0, t3: 0, t4: 0 };
    assert_eq!(s.delay(), -50);
    assert_eq!(s.offset(), 25);
}

#[test]
fn weighted_mean_combines_by_inverse_square_delay_weights() {
    // Weights as the combiner computes them for delays of 50 ms and 100 ms:
    // 1e6 / 50^2 = 400 and 1e6 / 100^2 = 100.
    let values = vec![10i64, 20];
    let weights = vec![400u64, 100];
    assert_eq!(weighted_mean(&values, &weights), Some(12));
}

#[test]
fn weighted_mean_of_nothing_is_undefined() {
    assert_eq!(weighted_mean(&Vec::new(), &Vec::new()), None);
    let values = vec![7i64];
    let weights = vec![0u64];
    assert_eq!(weighted_mean(&values, &weights), None);
}

#[test]
fn combiner_weights_samples_by_delay() {
    let results = collect_samples(
        vec!["a".to_string(), "b".to_string()],
        vec![Ok(sample_with_delay_ms(50)), Ok(sample_with_delay_ms(100))],
    )
    .unwrap();
    // Offsets are 25 ms and 50 ms, weights 400 and 100:
    // (25 * 400 + 50 * 100) / 500 = 30.
    assert_eq!(results.get_time_millis(), Some(30));
}

#[test]
fn zero_delay_sample_is_excluded_from_the_mean() {
    let results = collect_samples(
        vec!["ideal".to_string(), "slow".to_string()],
        vec![Ok(sample_with_delay_ms(0)), Ok(sample_with_delay_ms(50))],
    )
    .unwrap();
    assert_eq!(results.get_time_millis(), Some(25));
}

#[test]
fn all_zero_delay_samples_leave_the_estimate_undefined() {
    let results = collect_samples(
        vec!["ideal".to_string()],
        vec![Ok(sample_with_delay_ms(0))],
    )
    .unwrap();
    assert_eq!(results.get_time_millis(), None);
}

#[test]
fn empty_sample_set_leaves_the_estimate_undefined() {
    let servers: Vec<String> = Vec::new();
    let outcomes: Vec<Result<NTPResult, LunartickError>> = Vec::new();
    let results = collect_samples(servers, outcomes).unwrap();
    assert_eq!(results.get_time_millis(), None);
}

#[test]
fn connection_error_aborts_the_batch() {
    let r = collect_samples(
        vec!["s1".to_string(), "s2".to_string(), "s3".to_string()],
        vec![
            Ok(sample_with_delay_ms(40)),
            Err(LunartickError::ConnectionError),
            Ok(sample_with_delay_ms(60)),
        ],
    );
    assert!(matches!(r, Err(LunartickError::ConnectionError)));
}

#[test]
fn parse_error_aborts_the_batch() {
    let r = collect_samples(
        vec!["s1".to_string()],
        vec![Err(LunartickError::ParseTimestampError)],
    );
    assert!(matches!(r, Err(LunartickError::ParseTimestampError)));
}

#[test]
fn timeout_degrades_one_server_to_no_result() {
    let results = collect_samples(
        vec!["s1".to_string(), "s2".to_string(), "s3".to_string()],
        vec![
            Ok(sample_with_delay_ms(40)),
            Err(LunartickError::IO("timed out".to_string())),
            Ok(sample_with_delay_ms(60)),
        ],
    )
    .unwrap();
    assert_eq!(results.samples.len(), 3);
    assert!(results.samples[0].is_some());
    assert!(results.samples[1].is_none());
    assert!(results.samples[2].is_some());
    let report = results.get_all_results();
    assert_eq!(report[0], ("s1".to_string(), Some(20)));
    assert_eq!(report[1], ("s2".to_string(), None));
    assert_eq!(report[2], ("s3".to_string(), Some(30)));
}

#[test]
fn outcome_policy_per_variant() {
    let ok = outcome_to_entry(Ok(sample_with_delay_ms(10)));
    assert!(matches!(ok, Ok(Some(s)) if s == sample_with_delay_ms(10)));
    let soft = outcome_to_entry(Err(LunartickError::IO("unreachable".to_string())));
    assert!(matches!(soft, Ok(None)));
    let fatal = outcome_to_entry(Err(LunartickError::ConnectionError));
    assert!(matches!(fatal, Err(LunartickError::ConnectionError)));
}

#[test]
fn client_constructors_keep_their_servers() {
    let default_client = NTPClient::new();
    assert_eq!(
        default_client.get_servers(),
        vec![
            "time.nist.gov".to_string(),
            "time.apple.com".to_string(),
            "time.euro.apple.com".to_string(),
            "time.google.com".to_string(),
            "time2.google.com".to_string(),
        ]
    );
    let one = NTPClient::new_with_server("ntp.example.org".to_string());
    assert_eq!(one.get_servers(), vec!["ntp.example.org".to_string()]);
    let many = NTPClient::new_with_multiple_servers(vec!["a".to_string(), "b".to_string()]);
    assert_eq!(many.get_servers(), vec!["a".to_string(), "b".to_string()]);
}
