use push_metrics::messages::{
    encode_failure_message, invalid_frequency_message, send_failure_message, skip_message,
    start_message,
};

#[test]
fn skip_text_is_exact() {
    assert_eq!(
        skip_message(),
        "PUSH_METRICS_ENDPOINT env var is not set. Skipping sending metrics."
    );
}

#[test]
fn invalid_frequency_names_the_value() {
    assert_eq!(
        invalid_frequency_message("abc"),
        "Invalid value for PUSH_METRICS_FREQUENCY_SECS: abc"
    );
}

#[test]
fn start_text_names_endpoint_and_frequency() {
    assert_eq!(
        start_message("http://gw:9091/metrics/job/x", 15),
        "Starting push metrics loop. Sending metrics to http://gw:9091/metrics/job/x \
         with a frequency of 15 seconds"
    );
}

#[test]
fn encode_failure_names_the_error() {
    assert_eq!(
        encode_failure_message("bad metric state"),
        "Failed to encode push metrics: bad metric state."
    );
}

#[test]
fn send_failure_names_endpoint_and_error() {
    let m = send_failure_message("http://gw:9091", "connection refused");
    assert_eq!(
        m,
        "Failed to push metrics to http://gw:9091. Error: connection refused"
    );
    assert!(m.contains("http://gw:9091"));
}
