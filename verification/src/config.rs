//! Configuration resolution: from the two environment-provided values to the
//! decision whether the pusher runs at all, and with what endpoint and
//! frequency.

use vstd::prelude::*;
use crate::decimal::{parse_decimal, spec_parse_decimal};

verus! {

/// The number of seconds between pushes when the frequency variable is absent.
pub const DEFAULT_PUSH_FREQUENCY_SECS: u64 = 15;

/// The resolved configuration of the pusher: where to push, and how many
/// seconds to rest between pushes.  Built once at startup; never changed.
pub struct PushConfig {
    pub endpoint: String,
    pub frequency_secs: u64,
}

impl PushConfig {
    /// A configuration is well formed when its frequency is a positive
    /// number of seconds.
    pub open spec fn wf(&self) -> bool {
        self.frequency_secs >= 1
    }
}

/// What the frequency variable denotes: its value when it is a decimal string
/// for a positive integer that fits in a `u64`, and nothing otherwise.
pub open spec fn spec_frequency(s: Seq<char>) -> Option<u64> {
    match spec_parse_decimal(s) {
        Some(n) => if n >= 1 {
            Some(n)
        } else {
            None
        },
        None => None,
    }
}

/// Reads the frequency variable's value: a positive decimal integer.
pub fn parse_frequency(s: &str) -> (r: Option<u64>)
    ensures
        r == spec_frequency(s@),
{
    match parse_decimal(s) {
        Some(n) => if n >= 1 {
            Some(n)
        } else {
            None
        },
        None => None,
    }
}

/// The outcome of configuration resolution (see
/// [`MetricsPusher::resolve`](crate::pusher::MetricsPusher::resolve)).
pub enum Resolution {
    /// The endpoint variable is absent: the feature is skipped.  This is the
    /// expected state for processes that do not push metrics, not an error.
    Disabled,
    /// The frequency variable is present but not a positive integer; the
    /// offending value is kept for the error report.  The whole feature is
    /// disabled: a malformed frequency is a misconfiguration serious enough
    /// to abstain rather than guess.
    Invalid { raw: String },
    /// Both values resolved; the pusher may run with this configuration.
    Enabled { config: PushConfig },
}

} // verus!
