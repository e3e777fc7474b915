//! The external collaborators of the loop's collection step: the
//! process-wide metrics registry and the text encoder.

use vstd::prelude::*;
use prometheus::Encoder;

verus! {

/// Declares `prometheus::proto::MetricFamily`, one registered family in a
/// snapshot of the registry.  It is carried through opaquely: only the
/// encoder reads it.
#[verifier::external_type_specification]
#[verifier::external_body]
pub struct ExMetricFamily(prometheus::proto::MetricFamily);

/// Relies on `prometheus::gather`: a point-in-time snapshot of the
/// process-wide default registry.  What the snapshot holds depends on what
/// the host application has registered and updated so far, so nothing is
/// promised of it.
#[verifier::external_body]
fn gather_families() -> Vec<prometheus::proto::MetricFamily> {
    prometheus::gather()
}

/// Relies on `prometheus::TextEncoder` through `Encoder::encode`: it renders
/// the families in the text exposition format into the buffer, and reports
/// any failure as an error.
#[verifier::external_body]
fn encode_families(families: &Vec<prometheus::proto::MetricFamily>) -> Result<Vec<u8>, String> {
    let mut buffer = Vec::new();
    match prometheus::TextEncoder::new().encode(families, &mut buffer) {
        Ok(()) => Ok(buffer),
        Err(e) => Err(e.to_string()),
    }
}

/// Collects the current snapshot of the process-wide metrics registry and
/// encodes it in the text exposition format.  The outcome — the encoded
/// bytes, or the encoder's report — depends on the registry's state at the
/// moment of the call, so the loop handles every outcome alike: it is fed
/// back in as a collection event.
pub fn collect_payload() -> Result<Vec<u8>, String> {
    let families = gather_families();
    encode_families(&families)
}

} // verus!
