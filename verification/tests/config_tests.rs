use push_metrics::config::{parse_frequency, Resolution};
use push_metrics::MetricsPusher;

fn s(v: &str) -> Option<String> {
    Some(v.to_string())
}

#[test]
fn absent_endpoint_disables() {
    assert!(matches!(MetricsPusher.resolve(None, None), Resolution::Disabled));
}

#[test]
fn absent_endpoint_disables_even_with_frequency() {
    assert!(matches!(MetricsPusher.resolve(None, s("30")), Resolution::Disabled));
    assert!(matches!(MetricsPusher.resolve(None, s("abc")), Resolution::Disabled));
}

#[test]
fn absent_frequency_defaults_to_fifteen() {
    match MetricsPusher.resolve(s("http://gw:9091/metrics/job/x"), None) {
        Resolution::Enabled { config } => {
            assert_eq!(config.endpoint, "http://gw:9091/metrics/job/x");
            assert_eq!(config.frequency_secs, 15);
        }
        _ => panic!("expected the default frequency"),
    }
}

#[test]
fn valid_frequency_is_used() {
    match MetricsPusher.resolve(s("http://gw"), s("30")) {
        Resolution::Enabled { config } => assert_eq!(config.frequency_secs, 30),
        _ => panic!("expected an enabled pusher"),
    }
}

#[test]
fn leading_zeros_are_digits() {
    match MetricsPusher.resolve(s("http://gw"), s("007")) {
        Resolution::Enabled { config } => assert_eq!(config.frequency_secs, 7),
        _ => panic!("expected an enabled pusher"),
    }
}

#[test]
fn word_frequency_disables() {
    match MetricsPusher.resolve(s("http://gw"), s("abc")) {
        Resolution::Invalid { raw } => assert_eq!(raw, "abc"),
        _ => panic!("expected the feature to be disabled"),
    }
}

#[test]
fn negative_frequency_disables() {
    match MetricsPusher.resolve(s("http://gw"), s("-5")) {
        Resolution::Invalid { raw } => assert_eq!(raw, "-5"),
        _ => panic!("expected the feature to be disabled"),
    }
}

#[test]
fn empty_frequency_disables() {
    match MetricsPusher.resolve(s("http://gw"), s("")) {
        Resolution::Invalid { raw } => assert_eq!(raw, ""),
        _ => panic!("expected the feature to be disabled"),
    }
}

#[test]
fn zero_frequency_disables() {
    assert!(matches!(
        MetricsPusher.resolve(s("http://gw"), s("0")),
        Resolution::Invalid { .. }
    ));
}

#[test]
fn oversized_frequency_disables() {
    assert!(matches!(
        MetricsPusher.resolve(s("http://gw"), s("18446744073709551616")),
        Resolution::Invalid { .. }
    ));
}

#[test]
fn parse_frequency_accepts_positive_integers() {
    assert_eq!(parse_frequency("1"), Some(1));
    assert_eq!(parse_frequency("15"), Some(15));
    assert_eq!(parse_frequency("18446744073709551615"), Some(u64::MAX));
}

#[test]
fn parse_frequency_rejects_everything_else() {
    assert_eq!(parse_frequency("0"), None);
    assert_eq!(parse_frequency(""), None);
    assert_eq!(parse_frequency("1.5"), None);
    assert_eq!(parse_frequency(" 1"), None);
    assert_eq!(parse_frequency("1s"), None);
    assert_eq!(parse_frequency("⑮"), None);
    assert_eq!(parse_frequency("18446744073709551616"), None);
}
