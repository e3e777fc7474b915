//! The texts the pusher reports through the host's logger: what each one
//! says, stated character for character.

use vstd::prelude::*;
use vstd::string::StringExecFns;

verus! {

/// `needle` occurs contiguously somewhere in `hay`.
pub open spec fn contains_seq(hay: Seq<char>, needle: Seq<char>) -> bool {
    exists|i: int|
        0 <= i && i + needle.len() <= hay.len() && #[trigger] hay.subrange(i, i + needle.len())
            == needle
}

/// The report when the endpoint variable is absent and the feature is
/// skipped.
pub open spec fn skip_text() -> Seq<char> {
    "PUSH_METRICS_ENDPOINT env var is not set. Skipping sending metrics."@
}

/// Builds the skipped-feature report.
pub fn skip_message() -> (r: String)
    ensures
        r@ == skip_text(),
{
    "PUSH_METRICS_ENDPOINT env var is not set. Skipping sending metrics.".to_owned()
}

/// The report when the frequency variable holds the offending value `raw`.
pub open spec fn invalid_frequency_text(raw: Seq<char>) -> Seq<char> {
    "Invalid value for PUSH_METRICS_FREQUENCY_SECS: "@ + raw
}

/// Builds the malformed-frequency report, naming the offending value.
pub fn invalid_frequency_message(raw: &str) -> (r: String)
    ensures
        r@ == invalid_frequency_text(raw@),
{
    let mut r = "Invalid value for PUSH_METRICS_FREQUENCY_SECS: ".to_owned();
    r.append(raw);
    r
}

/// The report when the loop starts with the given endpoint and frequency
/// rendering.
pub open spec fn start_text(endpoint: Seq<char>, frequency: Seq<char>) -> Seq<char> {
    "Starting push metrics loop. Sending metrics to "@ + endpoint + " with a frequency of "@
        + frequency + " seconds"@
}

/// Builds the loop-start report, naming the endpoint and the frequency in
/// seconds.
pub fn start_message(endpoint: &str, frequency_secs: u64) -> (r: String)
    ensures
        r@ == start_text(endpoint@, crate::decimal::spec_decimal(frequency_secs as nat)),
{
    let mut r = "Starting push metrics loop. Sending metrics to ".to_owned();
    r.append(endpoint);
    r.append(" with a frequency of ");
    let rendered = crate::decimal::to_decimal(frequency_secs);
    r.append(rendered.as_str());
    r.append(" seconds");
    r
}

/// The report when encoding the snapshot failed with the encoder's text `error`.
pub open spec fn encode_failure_text(error: Seq<char>) -> Seq<char> {
    "Failed to encode push metrics: "@ + error + "."@
}

/// Builds the encoding-failure report.
pub fn encode_failure_message(error: &str) -> (r: String)
    ensures
        r@ == encode_failure_text(error@),
{
    let mut r = "Failed to encode push metrics: ".to_owned();
    r.append(error);
    r.append(".");
    r
}

/// The report when delivering to `endpoint` failed with the transport's text
/// `error`.
pub open spec fn send_failure_text(endpoint: Seq<char>, error: Seq<char>) -> Seq<char> {
    "Failed to push metrics to "@ + endpoint + ". Error: "@ + error
}

/// Builds the delivery-failure report, naming the endpoint.
pub fn send_failure_message(endpoint: &str, error: &str) -> (r: String)
    ensures
        r@ == send_failure_text(endpoint@, error@),
{
    let mut r = "Failed to push metrics to ".to_owned();
    r.append(endpoint);
    r.append(". Error: ");
    r.append(error);
    r
}

/// The delivery-failure report names the endpoint it failed to reach.
pub proof fn lemma_send_failure_names_endpoint(endpoint: Seq<char>, error: Seq<char>)
    ensures
        contains_seq(send_failure_text(endpoint, error), endpoint),
{
    let pre = "Failed to push metrics to "@;
    let hay = send_failure_text(endpoint, error);
    let i = pre.len() as int;
    assert(hay.subrange(i, i + endpoint.len() as int) =~= endpoint);
}

} // verus!
