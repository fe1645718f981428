use vstd::prelude::*;

use crate::json::decode_status;
use crate::json::spec_decode_status;
use crate::status::FetchError;
use crate::status::VpnStatus;

verus! {

/// The two load-bearing time constants of the monitor, in seconds: how
/// long one fetch may take, and how often the loop polls.
pub struct MonitorConfig {
    pub fetch_timeout_secs: u64,
    pub poll_period_secs: u64,
}

impl Default for MonitorConfig {
    /// The default cadence: a ten-second fetch deadline, polled every
    /// fifteen seconds.
    fn default() -> (c: Self)
        ensures
            c.fetch_timeout_secs == 10,
            c.poll_period_secs == 15,
    {
        MonitorConfig { fetch_timeout_secs: 10, poll_period_secs: 15 }
    }
}

/// reqwest's error type, declared opaquely so that a failed request can
/// be handed to the error taxonomy below.
#[verifier::external_type_specification]
#[verifier::external_body]
pub struct ExReqwestError(reqwest::Error);

/// Whether a failed request's cause chain holds an elapsed-deadline
/// error: the name for what `reqwest::Error::is_timeout` reports of it.
pub uninterp spec fn spec_is_timeout(e: reqwest::Error) -> bool;

/// Relies on reqwest::Error::is_timeout, which reports whether the
/// failure's cause chain holds an elapsed-deadline error; the result
/// depends on the error value alone.
pub assume_specification[ reqwest::Error::is_timeout ](e: &reqwest::Error) -> (r: bool)
    ensures
        r == spec_is_timeout(*e),
;

/// Sort a failed status request into the error taxonomy: an elapsed fetch
/// deadline is a timeout, every other transport-level failure is a
/// transport error. A failed request is never a decode error.
pub fn classify_transport_failure(e: &reqwest::Error) -> (r: FetchError)
    ensures
        r == if spec_is_timeout(*e) {
            FetchError::Timeout
        } else {
            FetchError::Transport
        },
{
    if e.is_timeout() {
        FetchError::Timeout
    } else {
        FetchError::Transport
    }
}

/// The compute half of one fetch: the transport outcome — a response body,
/// or how the request failed — interpreted into the normalized state.
/// A transport failure passes through; a body that is no status document
/// becomes a decode failure.
pub fn interpret_fetch(outcome: Result<Vec<u8>, FetchError>) -> (r: Result<VpnStatus, FetchError>)
    requires
        outcome matches Ok(b) ==> b@.len() < usize::MAX,
    ensures
        match outcome {
            Ok(body) => (r matches Ok(st) ==> spec_decode_status(body@) == Some(st@)) && (
            r matches Err(e) ==> spec_decode_status(body@) is None && e == FetchError::Decode),
            Err(e) => r == Err::<VpnStatus, FetchError>(e),
        },
{
    match outcome {
        Ok(body) => decode_status(&body),
        Err(e) => Err(e),
    }
}

} // verus!
