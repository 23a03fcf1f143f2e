use vstd::prelude::*;

use crate::digits::{decimal, padded_decimal, push_decimal, push_padded_decimal};

verus! {

pub const NANOS_PER_SEC: u64 = 1_000_000_000;

/// How long a script may run when the caller names no limit: five minutes.
pub const DEFAULT_SCRIPT_TIMEOUT_SECS: u64 = 300;

/// The API's duration notation: whole seconds, a point, exactly nine digits of
/// fraction and the unit `s`.
pub open spec fn spec_duration_text(nanos: nat) -> Seq<char> {
    decimal(nanos / NANOS_PER_SEC as nat) + "."@ + padded_decimal(nanos % NANOS_PER_SEC as nat, 9)
        + "s"@
}

/// The body of a task submission: the script and how long it may run.
#[derive(Debug, Clone, PartialEq, Eq)]
pub struct OpenCloudTaskUpload {
    pub script: String,
    /// The run-time limit in nanoseconds.
    pub timeout_nanos: u64,
}

impl OpenCloudTaskUpload {
    /// A submission of `script`, limited to `timeout_nanos` or, when that is
    /// absent, to the default limit.
    pub fn new(script: &str, timeout_nanos: Option<u64>) -> (r: OpenCloudTaskUpload)
        ensures
            r.script@ == script@,
            r.timeout_nanos == match timeout_nanos {
                Some(t) => t,
                None => (DEFAULT_SCRIPT_TIMEOUT_SECS * NANOS_PER_SEC) as u64,
            },
    {
        let timeout = match timeout_nanos {
            Some(t) => t,
            None => DEFAULT_SCRIPT_TIMEOUT_SECS * NANOS_PER_SEC,
        };
        OpenCloudTaskUpload { script: script.to_owned(), timeout_nanos: timeout }
    }

    /// The limit as the API expects it on the wire, e.g. `300.000000000s`.
    pub fn timeout_text(&self) -> (r: String)
        ensures
            r@ == spec_duration_text(self.timeout_nanos as nat),
    {
        let mut text = String::new();
        push_decimal(&mut text, self.timeout_nanos / NANOS_PER_SEC);
        text.append(".");
        push_padded_decimal(&mut text, self.timeout_nanos % NANOS_PER_SEC, 9);
        text.append("s");
        text
    }
}

} // verus!
