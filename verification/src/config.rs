//! The defaults that a fresh builder starts from.

use std::time::Duration;

use vstd::prelude::*;

verus! {

/// The base URL of the service.
pub const API_ENDPOINT: &'static str = "https://app.posthog.com";

/// The default timeout of a request, in milliseconds.
pub const DEFAULT_TIMEOUT_MILLIS: u64 = 800;

/// The duration of `millis` milliseconds.
pub uninterp spec fn duration_of_millis(millis: u64) -> Duration;

/// Trusted: `Duration::from_millis` returns the duration of that many
/// milliseconds, here named [`duration_of_millis`]. A `Duration` is opaque to
/// the verifier, so the name is all that is said of it.
pub assume_specification[ Duration::from_millis ](millis: u64) -> (d: Duration)
    ensures
        d == duration_of_millis(millis),
;

/// The default timeout of a request.
pub fn default_timeout() -> (d: Duration)
    ensures
        d == duration_of_millis(DEFAULT_TIMEOUT_MILLIS),
{
    Duration::from_millis(DEFAULT_TIMEOUT_MILLIS)
}

} // verus!
